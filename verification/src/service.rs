//! Service-wide rules: known paths, caching, build identity, port and journal settings.
use vstd::prelude::*;
use crate::text::chars_equal;
use crate::text::chars_of;
use crate::text::chars_start_with;
use crate::text::has_prefix;

verus! {

/// The exact paths the site serves.
pub open spec fn is_named_path(p: Seq<char>) -> bool {
    ||| p == "/"@
    ||| p == "/health"@
    ||| p == "/ready"@
    ||| p == "/demo"@
    ||| p == "/start"@
    ||| p == "/app"@
    ||| p == "/privacy"@
    ||| p == "/terms"@
    ||| p == "/auth/callback"@
    ||| p == "/index.html"@
    ||| p == "/404.html"@
    ||| p == "/favicon.svg"@
    ||| p == "/apple-touch-icon.png"@
    ||| p == "/apple-touch-icon.svg"@
    ||| p == "/og-image.svg"@
    ||| p == "/manifest.webmanifest"@
    ||| p == "/robots.txt"@
    ||| p == "/sitemap.xml"@
    ||| p == "/staticwebapp.config.json"@
    ||| p == "/sw.js"@
}

/// The path prefixes under which the site serves anything.
pub open spec fn is_served_tree(p: Seq<char>) -> bool {
    ||| has_prefix(p, "/api/"@)
    ||| has_prefix(p, "/demo/"@)
    ||| has_prefix(p, "/app/"@)
    ||| has_prefix(p, "/assets/"@)
    ||| has_prefix(p, "/fonts/"@)
}

/// Whether the site knows the path.
pub open spec fn is_known_path(p: Seq<char>) -> bool {
    is_named_path(p) || is_served_tree(p)
}

fn is_literal(p: &[char], literal: &str) -> (r: bool)
    ensures
        r == (p@ == literal@),
{
    let l = chars_of(literal);
    chars_equal(p, l.as_slice())
}

fn has_literal_prefix(p: &[char], literal: &str) -> (r: bool)
    ensures
        r == has_prefix(p@, literal@),
{
    let l = chars_of(literal);
    chars_start_with(p, l.as_slice())
}

fn named_path(p: &[char]) -> (r: bool)
    ensures
        r == is_named_path(p@),
{
    is_literal(p, "/") || is_literal(p, "/health") || is_literal(p, "/ready") || is_literal(
        p,
        "/demo",
    ) || is_literal(p, "/start") || is_literal(p, "/app") || is_literal(p, "/privacy")
        || is_literal(p, "/terms") || is_literal(p, "/auth/callback") || is_literal(
        p,
        "/index.html",
    ) || is_literal(p, "/404.html") || is_literal(p, "/favicon.svg") || is_literal(
        p,
        "/apple-touch-icon.png",
    ) || is_literal(p, "/apple-touch-icon.svg") || is_literal(p, "/og-image.svg") || is_literal(
        p,
        "/manifest.webmanifest",
    ) || is_literal(p, "/robots.txt") || is_literal(p, "/sitemap.xml") || is_literal(
        p,
        "/staticwebapp.config.json",
    ) || is_literal(p, "/sw.js")
}

/// Whether the site knows `path`: its pages, health checks, files and API tree.
pub fn known(path: &str) -> (r: bool)
    ensures
        r == is_known_path(path@),
{
    let p = chars_of(path);
    let p = p.as_slice();
    named_path(p) || has_literal_prefix(p, "/api/") || has_literal_prefix(p, "/demo/")
        || has_literal_prefix(p, "/app/") || has_literal_prefix(p, "/assets/")
        || has_literal_prefix(p, "/fonts/")
}

/// The status finally answered: a success for a path the site does not know becomes 404.
pub open spec fn final_status(status: u16, p: Seq<char>) -> u16 {
    if status == 200 && !is_known_path(p) {
        404
    } else {
        status
    }
}

/// The status finally answered for a response to `path`.
pub fn policy_status(status: u16, path: &str) -> (s: u16)
    ensures
        s == final_status(status, path@),
{
    if status == 200 && !known(path) {
        404
    } else {
        status
    }
}

/// Whether `p` contains a dot.
pub open spec fn has_dot(p: Seq<char>) -> bool {
    exists|i: int| 0 <= i < p.len() && p[i] == '.'
}

/// Whether responses for `p` must not be cached: the API, the service worker, the HTML
/// shells, and paths without a file extension.
pub open spec fn is_uncached_path(p: Seq<char>) -> bool {
    ||| has_prefix(p, "/api/"@)
    ||| p == "/sw.js"@
    ||| p == "/index.html"@
    ||| p == "/404.html"@
    ||| !has_dot(p)
}

/// The `Cache-Control` value for responses to `p`.
pub open spec fn cache_policy(p: Seq<char>) -> Seq<char> {
    if is_uncached_path(p) {
        "no-cache, no-store, must-revalidate"@
    } else if has_prefix(p, "/assets/"@) || has_prefix(p, "/fonts/"@) {
        "public, max-age=31536000, immutable"@
    } else {
        "public, max-age=3600"@
    }
}

fn contains_dot(p: &[char]) -> (r: bool)
    ensures
        r == has_dot(p@),
{
    let mut i: usize = 0;
    while i < p.len()
        invariant
            i <= p@.len(),
            forall|k: int| 0 <= k < i ==> p@[k] != '.',
        decreases p@.len() - i,
    {
        if p[i] == '.' {
            return true;
        }
        i = i + 1;
    }
    false
}

/// The `Cache-Control` value for responses to `path`.
pub fn cache_control(path: &str) -> (c: &'static str)
    ensures
        c@ == cache_policy(path@),
{
    let p = chars_of(path);
    let p = p.as_slice();
    if has_literal_prefix(p, "/api/") || is_literal(p, "/sw.js") || is_literal(p, "/index.html")
        || is_literal(p, "/404.html") || !contains_dot(p) {
        "no-cache, no-store, must-revalidate"
    } else if has_literal_prefix(p, "/assets/") || has_literal_prefix(p, "/fonts/") {
        "public, max-age=31536000, immutable"
    } else {
        "public, max-age=3600"
    }
}

/// API answers are never cached, and neither are the pages of the single-page app.
pub proof fn lemma_api_never_cached(p: Seq<char>)
    requires
        has_prefix(p, "/api/"@) || !has_dot(p),
    ensures
        cache_policy(p) == "no-cache, no-store, must-revalidate"@,
{
}

/// The status policy changes nothing but successes on unknown paths.
pub proof fn lemma_policy_keeps_known_and_failed(status: u16, p: Seq<char>)
    ensures
        is_known_path(p) ==> final_status(status, p) == status,
        status != 200 ==> final_status(status, p) == status,
        !is_known_path(p) && status == 200 ==> final_status(status, p) == 404,
{
}

/// The first of the build's commit settings that is set and not empty.
pub open spec fn build_sha_text(
    build: Option<Seq<char>>,
    git: Option<Seq<char>>,
    source: Option<Seq<char>>,
) -> Seq<char> {
    if build matches Some(b) && b.len() > 0 {
        build->0
    } else if git matches Some(g) && g.len() > 0 {
        git->0
    } else if source matches Some(s) && s.len() > 0 {
        source->0
    } else {
        "dev"@
    }
}

/// The build identity: the `BUILD_SHA`, `GIT_SHA` or `SOURCE_COMMIT` given at build time,
/// the first that is set and not empty, else `dev`; so it is never empty.
pub fn build_sha(
    build: Option<&'static str>,
    git: Option<&'static str>,
    source: Option<&'static str>,
) -> (s: &'static str)
    ensures
        s@ == build_sha_text(
            crate::audit::opt_view(build),
            crate::audit::opt_view(git),
            crate::audit::opt_view(source),
        ),
        s@.len() > 0,
{
    proof {
        reveal_strlit("dev");
    }
    if let Some(b) = build {
        if !b.is_empty() {
            return b;
        }
    }
    if let Some(g) = git {
        if !g.is_empty() {
            return g;
        }
    }
    if let Some(c) = source {
        if !c.is_empty() {
            return c;
        }
    }
    "dev"
}

/// Whether every character of `d` is an ASCII digit.
pub open spec fn all_digits(d: Seq<char>) -> bool {
    forall|i: int| 0 <= i < d.len() ==> '0' <= #[trigger] d[i] <= '9'
}

/// The number that the decimal digits `d` spell.
pub open spec fn digits_value(d: Seq<char>) -> int
    decreases d.len(),
{
    if d.len() == 0 {
        0
    } else {
        digits_value(d.drop_last()) * 10 + (d.last() as int - 48)
    }
}

/// The `u16` that `str::parse::<u16>` reads from `s`: an optional `+`, then one or more
/// decimal digits whose value fits.
pub open spec fn parsed_u16(s: Seq<char>) -> Option<u16> {
    let d = if s.len() > 0 && s[0] == '+' {
        s.drop_first()
    } else {
        s
    };
    if d.len() > 0 && all_digits(d) && digits_value(d) <= 65535 {
        Some(digits_value(d) as u16)
    } else {
        None
    }
}

proof fn lemma_digits_value_nonneg(d: Seq<char>)
    requires
        all_digits(d),
    ensures
        digits_value(d) >= 0,
    decreases d.len(),
{
    if d.len() > 0 {
        assert(all_digits(d.drop_last()));
        lemma_digits_value_nonneg(d.drop_last());
    }
}

proof fn lemma_digits_value_grows(d: Seq<char>, k: int)
    requires
        all_digits(d),
        0 <= k <= d.len(),
    ensures
        digits_value(d.take(k)) <= digits_value(d),
    decreases d.len() - k,
{
    if k < d.len() {
        lemma_digits_value_grows(d, k + 1);
        assert(d.take(k + 1).drop_last() =~= d.take(k));
        assert(all_digits(d.take(k)));
        lemma_digits_value_nonneg(d.take(k));
    } else {
        assert(d.take(k) =~= d);
    }
}

/// Reads a `u16` as `str::parse::<u16>` does.
pub fn parse_u16(text: &str) -> (r: Option<u16>)
    ensures
        r == parsed_u16(text@),
{
    let s = chars_of(text);
    let start: usize = if s.len() > 0 && s[0] == '+' {
        1
    } else {
        0
    };
    let ghost d = if s@.len() > 0 && s@[0] == '+' {
        s@.drop_first()
    } else {
        s@
    };
    assert(d =~= s@.subrange(start as int, s@.len() as int));
    if start >= s.len() {
        assert(d.len() == 0);
        return None;
    }
    let mut value: u32 = 0;
    let mut i: usize = start;
    while i < s.len()
        invariant
            start <= i <= s@.len(),
            s@ == text@,
            d == (if text@.len() > 0 && text@[0] == '+' {
                text@.drop_first()
            } else {
                text@
            }),
            d == s@.subrange(start as int, s@.len() as int),
            all_digits(d.take(i - start)),
            value == digits_value(d.take(i - start)),
            value <= 65535,
        decreases s@.len() - i,
    {
        let c = s[i];
        assert(d[i - start] == c);
        if c < '0' || c > '9' {
            assert(!('0' <= d[i - start] <= '9'));
            assert(!all_digits(d));
            return None;
        }
        let digit = (c as u32) - 48;
        assert(d.take(i - start + 1).drop_last() =~= d.take(i - start));
        assert(d.take(i - start + 1).last() == c);
        let next = value * 10 + digit;
        assert(all_digits(d.take(i - start + 1)));
        if next > 65535 {
            proof {
                if all_digits(d) {
                    lemma_digits_value_grows(d, i - start + 1);
                    assert(digits_value(d) > 65535);
                }
            }
            return None;
        }
        value = next;
        i = i + 1;
    }
    assert(d.take(i - start) =~= d);
    Some(value as u16)
}

/// The port to listen on and where it came from: the `PORT` setting where it reads as a
/// port number, else 8080.
pub fn read_port(setting: Option<&str>) -> (r: (u16, &'static str))
    ensures
        setting is None ==> r.0 == 8080 && r.1@ == "default"@,
        setting matches Some(v) ==> match parsed_u16(v@) {
            Some(p) => r.0 == p && r.1@ == "supplied"@,
            None => r.0 == 8080 && r.1@ == "invalid-fallback"@,
        },
{
    match setting {
        Some(v) => match parse_u16(v) {
            Some(p) => (p, "supplied"),
            None => (8080, "invalid-fallback"),
        },
        None => (8080, "default"),
    }
}

/// ASCII letters in lower case; other characters unchanged.
pub open spec fn ascii_lower(c: char) -> char {
    if 'A' <= c <= 'Z' {
        ((c as u32) + 32) as char
    } else {
        c
    }
}

/// Whether `a` and `b` are equal ignoring ASCII case.
pub open spec fn equal_ignoring_ascii_case(a: Seq<char>, b: Seq<char>) -> bool {
    a.len() == b.len() && forall|i: int| 0 <= i < a.len() ==> ascii_lower(a[i]) == ascii_lower(b[i])
}

/// Whether a database in journal mode `mode` must be switched to write-ahead logging:
/// it must unless its mode already reads `wal` in any case.
pub fn needs_wal_switch(mode: &str) -> (r: bool)
    ensures
        r == !equal_ignoring_ascii_case(mode@, "wal"@),
{
    proof {
        reveal_strlit("wal");
    }
    let m = chars_of(mode);
    if m.len() != 3 {
        return true;
    }
    let a = m[0];
    let b = m[1];
    let c = m[2];
    let same = (a == 'w' || a == 'W') && (b == 'a' || b == 'A') && (c == 'l' || c == 'L');
    proof {
        let w = "wal"@;
        if same {
            assert forall|i: int| 0 <= i < 3 implies ascii_lower(mode@[i]) == ascii_lower(w[i]) by {
                if i == 0 {
                } else if i == 1 {
                } else {
                }
            }
        } else {
            if a != 'w' && a != 'W' {
                assert(ascii_lower(mode@[0]) != ascii_lower(w[0]));
            } else if b != 'a' && b != 'A' {
                assert(ascii_lower(mode@[1]) != ascii_lower(w[1]));
            } else {
                assert(ascii_lower(mode@[2]) != ascii_lower(w[2]));
            }
        }
    }
    !same
}

} // verus!
