//! Pieces of the HTTP/REST transport that are pure computation: request
//! URLs and the Basic authorization header.
use vstd::prelude::*;
use crate::config::Profile;
use crate::text::push_char;
use vstd::utf8::encode_utf8;

verus! {

/// The character of the standard Base64 alphabet at `i < 64`.
pub open spec fn b64_symbol(i: int) -> char {
    if i < 26 {
        (65 + i) as char
    } else if i < 52 {
        (97 + (i - 26)) as char
    } else if i < 62 {
        (48 + (i - 52)) as char
    } else if i == 62 {
        '+'
    } else {
        '/'
    }
}

/// Standard Base64 with `=` padding (RFC 4648), three bytes at a time.
pub open spec fn base64(input: Seq<u8>) -> Seq<char>
    decreases input.len(),
{
    if input.len() == 0 {
        seq![]
    } else {
        let b0 = input[0] as int;
        let b1 = if input.len() > 1 { input[1] as int } else { 0 };
        let b2 = if input.len() > 2 { input[2] as int } else { 0 };
        let c0 = b64_symbol(b0 / 4);
        let c1 = b64_symbol((b0 % 4) * 16 + b1 / 16);
        let c2 = if input.len() > 1 { b64_symbol((b1 % 16) * 4 + b2 / 64) } else { '=' };
        let c3 = if input.len() > 2 { b64_symbol(b2 % 64) } else { '=' };
        seq![c0, c1, c2, c3] + if input.len() > 3 { base64(input.skip(3)) } else { seq![] }
    }
}

/// A character of the standard Base64 alphabet: `A`-`Z`, `a`-`z`, `0`-`9`, `+`, `/`.
pub open spec fn is_b64_symbol(c: char) -> bool {
    ||| 65 <= c as int <= 90
    ||| 97 <= c as int <= 122
    ||| 48 <= c as int <= 57
    ||| c == '+'
    ||| c == '/'
}

/// The position of an alphabet character in the standard Base64 alphabet.
pub open spec fn b64_index(c: char) -> int {
    if 65 <= c as int <= 90 {
        c as int - 65
    } else if 97 <= c as int <= 122 {
        c as int - 97 + 26
    } else if 48 <= c as int <= 57 {
        c as int - 48 + 52
    } else if c == '+' {
        62
    } else {
        63
    }
}

/// Standard Base64 decoding (RFC 4648) of padded text, four characters at a time:
/// a group ending in `==` gives one byte, one ending in `=` two, any other three.
pub open spec fn base64_decode(s: Seq<char>) -> Seq<u8>
    decreases s.len(),
{
    if s.len() < 4 {
        seq![]
    } else {
        let v0 = b64_index(s[0]);
        let v1 = b64_index(s[1]);
        let v2 = b64_index(s[2]);
        let v3 = b64_index(s[3]);
        let x0 = (v0 * 4 + v1 / 16) as u8;
        let x1 = ((v1 % 16) * 16 + v2 / 4) as u8;
        let x2 = ((v2 % 4) * 64 + v3) as u8;
        let group = if s[2] == '=' {
            seq![x0]
        } else if s[3] == '=' {
            seq![x0, x1]
        } else {
            seq![x0, x1, x2]
        };
        group + base64_decode(s.skip(4))
    }
}

fn b64_char(i: u8) -> (c: char)
    requires
        i < 64,
    ensures
        c == b64_symbol(i as int),
{
    if i < 26 {
        (65 + i) as char
    } else if i < 52 {
        (97 + (i - 26)) as char
    } else if i < 62 {
        (48 + (i - 52)) as char
    } else if i == 62 {
        '+'
    } else {
        '/'
    }
}

/// Base64 encoding of `input`.
pub fn base64_encode(input: &[u8]) -> (out: String)
    ensures
        out@ == base64(input@),
{
    let n = input.len();
    let mut out = String::new();
    let mut i: usize = 0;
    assert(input@.skip(0) =~= input@);
    while i < n
        invariant
            n == input@.len(),
            i <= n,
            base64(input@) == out@ + base64(input@.skip(i as int)),
        decreases n - i,
    {
        let ghost rest = input@.skip(i as int);
        let b0 = input[i];
        let b1: u8 = if n - i > 1 { input[i + 1] } else { 0 };
        let b2: u8 = if n - i > 2 { input[i + 2] } else { 0 };
        let ghost before = out@;
        push_char(&mut out, b64_char(b0 / 4));
        push_char(&mut out, b64_char((b0 % 4) * 16 + b1 / 16));
        if n - i > 1 {
            push_char(&mut out, b64_char((b1 % 16) * 4 + b2 / 64));
        } else {
            push_char(&mut out, '=');
        }
        if n - i > 2 {
            push_char(&mut out, b64_char(b2 % 64));
        } else {
            push_char(&mut out, '=');
        }
        proof {
            assert(rest[0] == b0);
            if n - i > 1 {
                assert(rest[1] == b1);
            }
            if n - i > 2 {
                assert(rest[2] == b2);
            }
        }
        if n - i > 3 {
            assert(rest.skip(3) =~= input@.skip(i + 3));
            i = i + 3;
        } else {
            assert(input@.skip(n as int) =~= Seq::<u8>::empty());
            i = n;
        }
        assert(out@ =~= before + base64(rest).take(4));
    }
    assert(out@ + base64(input@.skip(n as int)) =~= out@);
    out
}

/// The value of an HTTP Basic `Authorization` header.
pub open spec fn basic_auth_value(user: Seq<char>, pass: Seq<char>) -> Seq<char> {
    "Basic "@ + base64(encode_utf8(user + ":"@ + pass))
}

/// `Basic <base64 of "user:pass">`.
pub fn basic_auth(user: &str, pass: &str) -> (r: String)
    ensures
        r@ == basic_auth_value(user@, pass@),
{
    let mut input = String::from_str(user);
    input.append(":");
    input.append(pass);
    let encoded = base64_encode(input.as_str().as_bytes());
    let mut r = String::from_str("Basic ");
    r.append(encoded.as_str());
    r
}

/// What the REST client needs of a profile: where the FE HTTP endpoint is and
/// whom to authenticate as.
pub struct HttpClient {
    pub base_url: String,
    pub user: String,
    pub password: Option<String>,
}

pub open spec fn opt_str(o: Option<String>) -> Seq<char> {
    match o {
        Some(s) => s@,
        None => Seq::empty(),
    }
}

impl HttpClient {
    pub fn new(profile: &Profile) -> (c: HttpClient)
        ensures
            c.base_url@ == profile.http_base_spec(),
            c.user@ == profile.user@,
            c.password == profile.password,
    {
        HttpClient {
            base_url: profile.http_base(),
            user: profile.user.clone(),
            password: clone_opt(&profile.password),
        }
    }

    /// The absolute URL of `path` on the FE.
    pub fn url(&self, path: &str) -> (u: String)
        ensures
            u@ == self.base_url@ + path@,
    {
        let mut u = self.base_url.clone();
        u.append(path);
        u
    }

    /// The `Authorization` header sent with every request; a missing password
    /// counts as empty.
    pub fn authorization(&self) -> (h: String)
        ensures
            h@ == basic_auth_value(self.user@, opt_str(self.password)),
    {
        match &self.password {
            Some(p) => basic_auth(self.user.as_str(), p.as_str()),
            None => {
                proof {
                    reveal_strlit("");
                }
                basic_auth(self.user.as_str(), "")
            },
        }
    }
}

/// `Option<String>::clone`.
pub fn clone_opt(o: &Option<String>) -> (r: Option<String>)
    ensures
        r == *o,
{
    match o {
        Some(s) => Some(s.clone()),
        None => None,
    }
}

} // verus!
