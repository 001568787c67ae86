//! Building JSON request bodies.
//!
//! The backend takes flat JSON objects of string fields. The bodies are
//! built here directly over UTF-8 bytes: a string value is escaped per
//! JSON's rules — quote, backslash and control characters — and spliced
//! between fixed scaffolding, with the fields in each object in sorted
//! key order. Multi-byte UTF-8 sequences pass through unchanged, which
//! keeps the output valid JSON for any input text.

use vstd::prelude::*;
use vstd::string::StringSliceAdditionalSpecFns;

verus! {

/// The byte of a lowercase hexadecimal digit.
pub open spec fn spec_hex_digit(n: u8) -> u8 {
    if n < 10 {
        (0x30 + n) as u8
    } else {
        (0x57 + n) as u8
    }
}

/// What one byte of a string value becomes inside a JSON string literal:
/// quote and backslash take a backslash escape, the named control
/// characters take their short escapes, the remaining control characters
/// take a `\u00XX` escape, and every other byte stands for itself.
pub open spec fn spec_escape_byte(b: u8) -> Seq<u8> {
    if b == 0x22 {
        seq![0x5cu8, 0x22u8]
    } else if b == 0x5c {
        seq![0x5cu8, 0x5cu8]
    } else if b == 0x08 {
        seq![0x5cu8, 0x62u8]
    } else if b == 0x0c {
        seq![0x5cu8, 0x66u8]
    } else if b == 0x0a {
        seq![0x5cu8, 0x6eu8]
    } else if b == 0x0d {
        seq![0x5cu8, 0x72u8]
    } else if b == 0x09 {
        seq![0x5cu8, 0x74u8]
    } else if b < 0x20 {
        seq![0x5cu8, 0x75u8, 0x30u8, 0x30u8, spec_hex_digit(b / 16), spec_hex_digit(b % 16)]
    } else {
        seq![b]
    }
}

/// A whole string value, escaped byte by byte.
pub open spec fn spec_escape_bytes(s: Seq<u8>) -> Seq<u8>
    decreases s.len(),
{
    if s.len() == 0 {
        Seq::empty()
    } else {
        spec_escape_byte(s.first()) + spec_escape_bytes(s.drop_first())
    }
}

/// Escaping one more byte extends the escaped output by that byte's
/// escape sequence.
proof fn lemma_escape_snoc(s: Seq<u8>, b: u8)
    ensures
        spec_escape_bytes(s.push(b)) =~= spec_escape_bytes(s) + spec_escape_byte(b),
    decreases s.len(),
{
    let p = s.push(b);
    if s.len() == 0 {
        assert(p.first() == b);
        assert(p.drop_first() =~= Seq::<u8>::empty());
        assert(spec_escape_bytes(p.drop_first()) == Seq::<u8>::empty());
        assert(spec_escape_bytes(s) == Seq::<u8>::empty());
    } else {
        assert(p.first() == s.first());
        assert(p.drop_first() =~= s.drop_first().push(b));
        lemma_escape_snoc(s.drop_first(), b);
    }
}

/// Append a fixed run of bytes to `out`.
fn push_bytes(out: &mut Vec<u8>, s: &[u8])
    ensures
        final(out)@ == old(out)@ + s@,
{
    let ghost base = old(out)@;
    proof {
        assert(out@ =~= base + s@.take(0));
    }
    for i in 0..s.len()
        invariant
            out@ == base + s@.take(i as int),
    {
        out.push(s[i]);
        proof {
            assert(s@.take(i as int).push(s@[i as int]) =~= s@.take(i + 1));
            assert((base + s@.take(i as int)).push(s@[i as int]) =~= base + s@.take(i + 1));
        }
    }
    proof {
        assert(s@.take(s@.len() as int) =~= s@);
    }
}

/// Append the escape sequence of one byte to `out`.
fn push_escaped_byte(out: &mut Vec<u8>, b: u8)
    ensures
        final(out)@ == old(out)@ + spec_escape_byte(b),
{
    if b == 0x22 {
        push_bytes(out, &[0x5c, 0x22]);
    } else if b == 0x5c {
        push_bytes(out, &[0x5c, 0x5c]);
    } else if b == 0x08 {
        push_bytes(out, &[0x5c, 0x62]);
    } else if b == 0x0c {
        push_bytes(out, &[0x5c, 0x66]);
    } else if b == 0x0a {
        push_bytes(out, &[0x5c, 0x6e]);
    } else if b == 0x0d {
        push_bytes(out, &[0x5c, 0x72]);
    } else if b == 0x09 {
        push_bytes(out, &[0x5c, 0x74]);
    } else if b < 0x20 {
        let hi = if b / 16 < 10 {
            0x30 + b / 16
        } else {
            0x57 + b / 16
        };
        let lo = if b % 16 < 10 {
            0x30 + b % 16
        } else {
            0x57 + b % 16
        };
        push_bytes(out, &[0x5c, 0x75, 0x30, 0x30, hi, lo]);
    } else {
        push_bytes(out, &[b]);
    }
}

/// Append a string value to `out` in its JSON-escaped form.
pub fn escape_json_into(s: &[u8], out: &mut Vec<u8>)
    ensures
        final(out)@ == old(out)@ + spec_escape_bytes(s@),
{
    let ghost base = old(out)@;
    proof {
        assert(s@.take(0) =~= Seq::<u8>::empty());
        assert(out@ =~= base + spec_escape_bytes(s@.take(0)));
    }
    for i in 0..s.len()
        invariant
            out@ == base + spec_escape_bytes(s@.take(i as int)),
    {
        push_escaped_byte(out, s[i]);
        proof {
            lemma_escape_snoc(s@.take(i as int), s@[i as int]);
            assert(s@.take(i as int).push(s@[i as int]) =~= s@.take(i + 1));
            assert((base + spec_escape_bytes(s@.take(i as int))) + spec_escape_byte(s@[i as int])
                =~= base + spec_escape_bytes(s@.take(i + 1)));
        }
    }
    proof {
        assert(s@.take(s@.len() as int) =~= s@);
    }
}

/// One `"key":"value"` member with the value escaped; `prefix` is the
/// scaffolding that precedes it (object opening or separating comma plus
/// the quoted key and colon).
pub open spec fn spec_json_member(prefix: &str, value: Seq<u8>) -> Seq<u8> {
    prefix.spec_bytes() + spec_escape_bytes(value) + ("\"").spec_bytes()
}

/// The submit-change request body: a JSON object with the model, the
/// prompt, the repository URL and the access token, in sorted key order.
pub open spec fn spec_dev_request(
    repo: Seq<u8>,
    token: Seq<u8>,
    prompt: Seq<u8>,
    model: Seq<u8>,
) -> Seq<u8> {
    spec_json_member("{\"model\":\"", model) + spec_json_member(",\"prompt\":\"", prompt)
        + spec_json_member(",\"repo\":\"", repo) + spec_json_member(",\"token\":\"", token)
        + ("}").spec_bytes()
}

/// The generate-tests request body: a JSON object with the repository
/// URL, the source and test file paths, and the access token, in sorted
/// key order.
pub open spec fn spec_cover_request(
    repo: Seq<u8>,
    token: Seq<u8>,
    source_file: Seq<u8>,
    test_file: Seq<u8>,
) -> Seq<u8> {
    spec_json_member("{\"repo\":\"", repo) + spec_json_member(",\"source_file\":\"", source_file)
        + spec_json_member(",\"test_file\":\"", test_file) + spec_json_member(
        ",\"token\":\"",
        token,
    ) + ("}").spec_bytes()
}

/// The lint request body: a JSON object with the code under review, the
/// model and the topic, in sorted key order.
pub open spec fn spec_lint_request(code: Seq<u8>, topic: Seq<u8>, model: Seq<u8>) -> Seq<u8> {
    spec_json_member("{\"code\":\"", code) + spec_json_member(",\"model\":\"", model)
        + spec_json_member(",\"topic\":\"", topic) + ("}").spec_bytes()
}

/// Append one member: the scaffolding `prefix`, the escaped value, and
/// the closing quote.
fn push_member(out: &mut Vec<u8>, prefix: &str, value: &str)
    ensures
        final(out)@ == old(out)@ + spec_json_member(prefix, value.spec_bytes()),
{
    push_bytes(out, prefix.as_bytes());
    escape_json_into(value.as_bytes(), out);
    push_quote(out);
    proof {
        assert(out@ =~= old(out)@ + spec_json_member(prefix, value.spec_bytes()));
    }
}

/// Append the closing quote of a member.
fn push_quote(out: &mut Vec<u8>)
    ensures
        final(out)@ == old(out)@ + ("\"").spec_bytes(),
{
    push_bytes(out, "\"".as_bytes());
}

/// Append the closing brace of an object.
fn push_close(out: &mut Vec<u8>)
    ensures
        final(out)@ == old(out)@ + ("}").spec_bytes(),
{
    push_bytes(out, "}".as_bytes());
}

/// Build the submit-change request body.
pub fn dev_request_body(repo: &str, token: &str, prompt: &str, model: &str) -> (r: Vec<u8>)
    ensures
        r@ == spec_dev_request(
            repo.spec_bytes(),
            token.spec_bytes(),
            prompt.spec_bytes(),
            model.spec_bytes(),
        ),
{
    let mut out: Vec<u8> = Vec::new();
    push_member(&mut out, "{\"model\":\"", model);
    push_member(&mut out, ",\"prompt\":\"", prompt);
    push_member(&mut out, ",\"repo\":\"", repo);
    push_member(&mut out, ",\"token\":\"", token);
    push_close(&mut out);
    proof {
        assert(out@ =~= spec_dev_request(
            repo.spec_bytes(),
            token.spec_bytes(),
            prompt.spec_bytes(),
            model.spec_bytes(),
        ));
    }
    out
}

/// Build the generate-tests request body.
pub fn cover_request_body(repo: &str, token: &str, source_file: &str, test_file: &str) -> (r: Vec<
    u8,
>)
    ensures
        r@ == spec_cover_request(
            repo.spec_bytes(),
            token.spec_bytes(),
            source_file.spec_bytes(),
            test_file.spec_bytes(),
        ),
{
    let mut out: Vec<u8> = Vec::new();
    push_member(&mut out, "{\"repo\":\"", repo);
    push_member(&mut out, ",\"source_file\":\"", source_file);
    push_member(&mut out, ",\"test_file\":\"", test_file);
    push_member(&mut out, ",\"token\":\"", token);
    push_close(&mut out);
    proof {
        assert(out@ =~= spec_cover_request(
            repo.spec_bytes(),
            token.spec_bytes(),
            source_file.spec_bytes(),
            test_file.spec_bytes(),
        ));
    }
    out
}

/// Build the lint request body.
pub fn lint_request_body(code: &str, topic: &str, model: &str) -> (r: Vec<u8>)
    ensures
        r@ == spec_lint_request(code.spec_bytes(), topic.spec_bytes(), model.spec_bytes()),
{
    let mut out: Vec<u8> = Vec::new();
    push_member(&mut out, "{\"code\":\"", code);
    push_member(&mut out, ",\"model\":\"", model);
    push_member(&mut out, ",\"topic\":\"", topic);
    push_close(&mut out);
    proof {
        assert(out@ =~= spec_lint_request(
            code.spec_bytes(),
            topic.spec_bytes(),
            model.spec_bytes(),
        ));
    }
    out
}

} // verus!
