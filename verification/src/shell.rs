//! The HTML shell of the administration UI: the content security policy it
//! sends and the stylesheet it links.

use vstd::prelude::*;
use vstd::string::*;
use crate::text::{char_is_white_space, is_white_space, strip_prefix};

verus! {

/// The Content-Security-Policy sent with a page whose inline scripts carry
/// `nonce`.
pub open spec fn spec_content_security_policy(nonce: Seq<char>) -> Seq<char> {
    "default-src 'self'; script-src 'self' 'nonce-"@ + nonce
        + "' 'wasm-unsafe-eval'; style-src 'self'; img-src 'self' data:; object-src 'none'; base-uri 'self'; frame-ancestors 'none'"@
}

/// The Content-Security-Policy sent with a page whose inline scripts carry
/// `nonce`.
pub fn content_security_policy(nonce: &str) -> (r: String)
    ensures
        r@ == spec_content_security_policy(nonce@),
{
    String::from_str("default-src 'self'; script-src 'self' 'nonce-").concat(nonce).concat(
        "' 'wasm-unsafe-eval'; style-src 'self'; img-src 'self' data:; object-src 'none'; base-uri 'self'; frame-ancestors 'none'",
    )
}

/// `s` without its leading white space.
pub open spec fn trim_start(s: Seq<char>) -> Seq<char>
    decreases s.len(),
{
    if s.len() > 0 && is_white_space(s[0]) {
        trim_start(s.drop_first())
    } else {
        s
    }
}

/// `s` without its trailing white space.
pub open spec fn trim_end(s: Seq<char>) -> Seq<char>
    decreases s.len(),
{
    if s.len() > 0 && is_white_space(s.last()) {
        trim_end(s.drop_last())
    } else {
        s
    }
}

/// `s` without leading and trailing white space.
pub open spec fn trim(s: Seq<char>) -> Seq<char> {
    trim_end(trim_start(s))
}

/// `s` without leading and trailing white space.
pub fn trimmed(s: &str) -> (r: String)
    ensures
        r@ == trim(s@),
{
    let n = s.unicode_len();
    let mut i: usize = 0;
    assert(s@.subrange(0, n as int) == s@);
    while i < n
        invariant
            n == s@.len(),
            i <= n,
            trim_start(s@.subrange(i as int, n as int)) == trim_start(s@),
        ensures
            i <= n,
            trim_start(s@.subrange(i as int, n as int)) == trim_start(s@),
            i == n || !is_white_space(s@[i as int]),
        decreases n - i,
    {
        if !char_is_white_space(s.get_char(i)) {
            break;
        }
        assert(s@.subrange(i as int, n as int).drop_first() == s@.subrange(i + 1, n as int));
        i = i + 1;
    }
    assert(trim_start(s@.subrange(i as int, n as int)) == s@.subrange(i as int, n as int));
    let mut j: usize = n;
    while j > i
        invariant
            n == s@.len(),
            i <= j <= n,
            trim_end(s@.subrange(i as int, j as int)) == trim_end(s@.subrange(i as int, n as int)),
        ensures
            i <= j <= n,
            trim_end(s@.subrange(i as int, j as int)) == trim_end(s@.subrange(i as int, n as int)),
            j == i || !is_white_space(s@[j - 1]),
        decreases j,
    {
        if !char_is_white_space(s.get_char(j - 1)) {
            break;
        }
        assert(s@.subrange(i as int, j as int).drop_last() == s@.subrange(i as int, j - 1));
        j = j - 1;
    }
    assert(trim_end(s@.subrange(i as int, j as int)) == s@.subrange(i as int, j as int));
    String::from_str(s.substring_char(i, j))
}

/// Position of the first line feed at or after `from`, or the end of `s`.
pub open spec fn line_end(s: Seq<char>, from: int) -> int
    decreases s.len() - from,
{
    if from >= s.len() {
        s.len() as int
    } else if s[from] == '\n' {
        from
    } else {
        line_end(s, from + 1)
    }
}

/// A line ends at or after where it starts, and within the text.
pub proof fn lemma_line_end_bounds(s: Seq<char>, from: int)
    requires
        0 <= from <= s.len(),
    ensures
        from <= line_end(s, from) <= s.len(),
    decreases s.len() - from,
{
    if from < s.len() && s[from] != '\n' {
        lemma_line_end_bounds(s, from + 1);
    }
}

/// The stylesheet hash a line of the hash file names: the text after
/// `css:`, trimmed, when that is not empty.
pub open spec fn css_line_hash(line: Seq<char>) -> Option<Seq<char>> {
    if "css:"@.len() <= line.len() && line.subrange(0, "css:"@.len() as int) == "css:"@ && trim(
        line.subrange("css:"@.len() as int, line.len() as int),
    ).len() > 0 {
        Some(trim(line.subrange("css:"@.len() as int, line.len() as int)))
    } else {
        None
    }
}

/// The hash named by the first line, from position `from` on, that names
/// one. Lines are split at line feeds; a carriage return before a line feed
/// stays in the line, where trimming removes it.
pub open spec fn css_hash_from(s: Seq<char>, from: int) -> Option<Seq<char>>
    decreases s.len() - from,
{
    if from < 0 || from > s.len() {
        None
    } else {
        let e = line_end(s, from);
        proof {
            lemma_line_end_bounds(s, from);
        }
        match css_line_hash(s.subrange(from, e)) {
            Some(h) => Some(h),
            None => if e >= s.len() {
                None
            } else {
                css_hash_from(s, e + 1)
            },
        }
    }
}

fn line_end_at(s: &str, from: usize) -> (e: usize)
    requires
        from <= s@.len(),
    ensures
        e == line_end(s@, from as int),
        from <= e <= s@.len(),
{
    let n = s.unicode_len();
    let mut i: usize = from;
    while i < n
        invariant
            n == s@.len(),
            from <= i <= n,
            line_end(s@, from as int) == line_end(s@, i as int),
        decreases n - i,
    {
        if s.get_char(i) == '\n' {
            return i;
        }
        i = i + 1;
    }
    i
}

/// The stylesheet hash recorded in the contents of a hash file.
pub fn css_hash(contents: &str) -> (r: Option<String>)
    ensures
        match css_hash_from(contents@, 0) {
            Some(h) => (r matches Some(t) && t@ == h),
            None => r is None,
        },
{
    let n = contents.unicode_len();
    let mut start: usize = 0;
    loop
        invariant
            n == contents@.len(),
            start <= n,
            css_hash_from(contents@, 0) == css_hash_from(contents@, start as int),
        decreases n - start,
    {
        let e = line_end_at(contents, start);
        let line = contents.substring_char(start, e);
        match strip_prefix(line, "css:") {
            Some(rest) => {
                let h = trimmed(rest.as_str());
                if h.as_str().unicode_len() > 0 {
                    return Some(h);
                }
            },
            None => {},
        }
        if e >= n {
            return None;
        }
        start = e + 1;
    }
}

/// The path of the UI stylesheet: `/{pkg}/{output}.css`, or, when file
/// hashing is on and the hash file names a hash, `/{pkg}/{output}.{hash}.css`.
pub open spec fn spec_stylesheet_href(
    pkg: Seq<char>,
    output: Seq<char>,
    hash_files: bool,
    hash_file: Option<Seq<char>>,
) -> Seq<char> {
    let hash = if hash_files {
        match hash_file {
            Some(contents) => css_hash_from(contents, 0),
            None => None,
        }
    } else {
        None
    };
    match hash {
        Some(h) => "/"@ + pkg + "/"@ + output + "."@ + h + ".css"@,
        None => "/"@ + pkg + "/"@ + output + ".css"@,
    }
}

/// The path of the UI stylesheet, given the site's package directory, its
/// output name, whether file hashing is on, and the contents of the hash
/// file when it could be read.
pub fn stylesheet_href(pkg: &str, output: &str, hash_files: bool, hash_file: Option<&str>) -> (r:
    String)
    ensures
        r@ == spec_stylesheet_href(
            pkg@,
            output@,
            hash_files,
            match hash_file {
                Some(c) => Some(c@),
                None => None,
            },
        ),
{
    let hash = if hash_files {
        match hash_file {
            Some(contents) => css_hash(contents),
            None => None,
        }
    } else {
        None
    };
    let base = String::from_str("/").concat(pkg).concat("/").concat(output);
    match hash {
        Some(h) => base.concat(".").concat(h.as_str()).concat(".css"),
        None => base.concat(".css"),
    }
}

} // verus!
