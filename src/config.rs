use vstd::prelude::*;
use vstd::string::*;

verus! {

pub open spec fn is_digit(c: char) -> bool {
    '0' <= c && c <= '9'
}

/// The number that a string of decimal digits writes.
pub open spec fn digits_value(s: Seq<char>) -> nat
    decreases s.len(),
{
    if s.len() == 0 {
        0
    } else {
        digits_value(s.drop_last()) * 10 + (s.last() as nat - '0' as nat) as nat
    }
}

/// What follows an optional leading `+`.
pub open spec fn unsigned_part(s: Seq<char>) -> Seq<char> {
    if s.len() > 0 && s[0] == '+' {
        s.drop_first()
    } else {
        s
    }
}

/// The digits of an unsigned decimal number: an optional `+` followed by at
/// least one digit and nothing else.
pub open spec fn unsigned_digits(s: Seq<char>) -> Option<Seq<char>> {
    let d = unsigned_part(s);
    if d.len() > 0 && forall|i: int| 0 <= i < d.len() ==> is_digit(#[trigger] d[i]) {
        Some(d)
    } else {
        None
    }
}

/// The value of `s` read as a 32-bit unsigned decimal number, if it is one.
pub open spec fn parsed_u32(s: Seq<char>) -> Option<nat> {
    match unsigned_digits(s) {
        Some(d) => if digits_value(d) <= u32::MAX {
            Some(digits_value(d))
        } else {
            None
        },
        None => None,
    }
}

pub open spec fn port_range_message() -> Seq<char> {
    "Port needs to be in range 0 - 65535"@
}

pub open spec fn invalid_port_message(port: Seq<char>) -> Seq<char> {
    "'"@ + port + "' is not a valid port"@
}

pub open spec fn invalid_directory_message() -> Seq<char> {
    "Not a valid path to a directory"@
}

/// The error for a port that is no unsigned number.
fn invalid_port(port: &str) -> (r: Result<(), String>)
    ensures
        r matches Err(e) && e@ == invalid_port_message(port@),
{
    let mut e = String::from_str("'");
    e.append(port);
    e.append("' is not a valid port");
    Err(e)
}

/// Checks a port given on the command line: an unsigned decimal number below
/// 65536.
pub fn valid_port(port: String) -> (r: Result<(), String>)
    ensures
        match parsed_u32(port@) {
            Some(n) => if n < 65536 {
                r is Ok
            } else {
                r matches Err(e) && e@ == port_range_message()
            },
            None => r matches Err(e) && e@ == invalid_port_message(port@),
        },
{
    let s = port.as_str();
    let n = s.unicode_len();
    let start: usize = if n > 0 && s.get_char(0) == '+' {
        1
    } else {
        0
    };
    let ghost d = s@.subrange(start as int, n as int);
    proof {
        if n > 0 && s@[0] == '+' {
            assert(d =~= s@.drop_first());
        } else {
            assert(d =~= s@);
        }
    }
    if start == n {
        return invalid_port(s);
    }
    let cap: u64 = 4294967296;
    let mut value: u64 = 0;
    let mut k: usize = start;
    while k < n
        invariant
            n == s@.len(),
            s@ == port@,
            start <= k <= n,
            d == s@.subrange(start as int, n as int),
            d == unsigned_part(port@),
            cap == 4294967296,
            forall|i: int| start <= i < k ==> is_digit(s@[i]),
            value == if digits_value(s@.subrange(start as int, k as int)) < cap {
                digits_value(s@.subrange(start as int, k as int))
            } else {
                cap as nat
            },
        decreases n - k,
    {
        let c = s.get_char(k);
        if !('0' <= c && c <= '9') {
            proof {
                assert(d[k - start] == c);
                assert(!is_digit(d[k - start]));
            }
            return invalid_port(s);
        }
        let digit: u64 = (c as u64) - ('0' as u64);
        let ghost before = digits_value(s@.subrange(start as int, k as int));
        proof {
            assert(s@.subrange(start as int, k + 1).drop_last() =~= s@.subrange(
                start as int,
                k as int,
            ));
            assert(digits_value(s@.subrange(start as int, k + 1)) == before * 10 + digit);
        }
        if value < cap {
            value = value * 10 + digit;
            if value > cap {
                value = cap;
            }
        } else {
            proof {
                assert(before * 10 + digit >= cap) by (nonlinear_arith)
                    requires
                        before >= cap,
                        cap == 4294967296,
                ;
            }
        }
        k = k + 1;
    }
    proof {
        assert(s@.subrange(start as int, k as int) == d);
        assert forall|i: int| 0 <= i < d.len() implies is_digit(d[i]) by {
            assert(d[i] == s@[start + i]);
        }
    }
    if value >= cap {
        invalid_port(s)
    } else if value < 65536 {
        Ok(())
    } else {
        Err(String::from_str("Port needs to be in range 0 - 65535"))
    }
}

/// Relies on `std::path::Path::is_dir`: whether a directory exists at `path`
/// depends on the file system, so nothing is stated of the answer.
#[verifier::external_body]
fn is_directory(path: &str) -> bool {
    std::path::Path::new(path).is_dir()
}

/// The answer to a directory check, given whether the path names a
/// directory.
pub fn directory_verdict(is_dir: bool) -> (r: Result<(), String>)
    ensures
        is_dir ==> r is Ok,
        !is_dir ==> (r matches Err(e) && e@ == invalid_directory_message()),
{
    if is_dir {
        Ok(())
    } else {
        Err(String::from_str("Not a valid path to a directory"))
    }
}

/// Checks a media directory given on the command line: the path must name a
/// directory.
pub fn valid_directory(s: String) -> (r: Result<(), String>)
    ensures
        r is Err ==> (r matches Err(e) && e@ == invalid_directory_message()),
{
    directory_verdict(is_directory(s.as_str()))
}

/// `s` with every occurrence of the non-empty `pattern`, found from left to
/// right without overlap, replaced by `with`.
pub open spec fn replace_all(s: Seq<char>, pattern: Seq<char>, with: Seq<char>) -> Seq<char>
    recommends
        pattern.len() > 0,
    decreases s.len(),
{
    if s.len() == 0 || pattern.len() == 0 {
        s
    } else if pattern.len() <= s.len() && s.take(pattern.len() as int) == pattern {
        with + replace_all(s.skip(pattern.len() as int), pattern, with)
    } else {
        seq![s[0]] + replace_all(s.drop_first(), pattern, with)
    }
}

/// Relies on `str::replace`: a copy of `s` with the matches of `pattern`,
/// found from left to right without overlap, replaced by `with`.
#[verifier::external_body]
fn replaced(s: &str, pattern: &str, with: &str) -> (r: String)
    requires
        pattern@.len() > 0,
    ensures
        r@ == replace_all(s@, pattern@, with@),
{
    s.replace(pattern, with)
}

/// The served page: the template with its `{{IP}}` and `{{PORT}}`
/// placeholders filled in.
pub fn populate_html_template(template: &str, ip: &str, port: &str) -> (r: String)
    ensures
        r@ == replace_all(replace_all(template@, "{{IP}}"@, ip@), "{{PORT}}"@, port@),
{
    proof {
        reveal_strlit("{{IP}}");
        reveal_strlit("{{PORT}}");
    }
    let with_ip = replaced(template, "{{IP}}", ip);
    replaced(with_ip.as_str(), "{{PORT}}", port)
}

} // verus!
