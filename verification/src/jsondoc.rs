//! Verified construction of the documents the store writes into a fresh
//! project directory: the metadata document and the initial scene document.
//! Both are pinned down character for character.

use vstd::prelude::*;
use vstd::string::StringExecFns;
use vstd::string::StrSliceExecFns;
use crate::numbers::{dec_digits, u64_dec_chars};

verus! {

/// Relies on String::push: appends one character at the end.
#[verifier::external_body]
pub(crate) fn push_char(s: &mut String, c: char)
    ensures
        final(s)@ == old(s)@.push(c),
{
    s.push(c)
}

/// The character for one hexadecimal digit, lower case.
pub open spec fn hex_char(d: nat) -> char
    recommends
        d < 16,
{
    if d == 0 {
        '0'
    } else if d == 1 {
        '1'
    } else if d == 2 {
        '2'
    } else if d == 3 {
        '3'
    } else if d == 4 {
        '4'
    } else if d == 5 {
        '5'
    } else if d == 6 {
        '6'
    } else if d == 7 {
        '7'
    } else if d == 8 {
        '8'
    } else if d == 9 {
        '9'
    } else if d == 10 {
        'a'
    } else if d == 11 {
        'b'
    } else if d == 12 {
        'c'
    } else if d == 13 {
        'd'
    } else if d == 14 {
        'e'
    } else {
        'f'
    }
}

/// How one character appears inside a JSON string literal.
pub open spec fn escape_char(c: char) -> Seq<char> {
    if c == '"' {
        seq!['\\', '"']
    } else if c == '\\' {
        seq!['\\', '\\']
    } else if c == '\n' {
        seq!['\\', 'n']
    } else if c == '\r' {
        seq!['\\', 'r']
    } else if c == '\t' {
        seq!['\\', 't']
    } else if (c as u32) < 0x20 {
        seq!['\\', 'u', '0', '0', hex_char((c as u32 / 16) as nat), hex_char((c as u32 % 16) as nat)]
    } else {
        seq![c]
    }
}

/// The body of a JSON string literal holding the characters of `s`.
pub open spec fn json_escaped(s: Seq<char>) -> Seq<char>
    decreases s.len(),
{
    if s.len() == 0 {
        Seq::empty()
    } else {
        json_escaped(s.drop_last()) + escape_char(s.last())
    }
}

fn hex_digit_to_char(d: u32) -> (c: char)
    requires
        d < 16,
    ensures
        c == hex_char(d as nat),
{
    if d == 0 {
        '0'
    } else if d == 1 {
        '1'
    } else if d == 2 {
        '2'
    } else if d == 3 {
        '3'
    } else if d == 4 {
        '4'
    } else if d == 5 {
        '5'
    } else if d == 6 {
        '6'
    } else if d == 7 {
        '7'
    } else if d == 8 {
        '8'
    } else if d == 9 {
        '9'
    } else if d == 10 {
        'a'
    } else if d == 11 {
        'b'
    } else if d == 12 {
        'c'
    } else if d == 13 {
        'd'
    } else if d == 14 {
        'e'
    } else {
        'f'
    }
}

fn append_escaped_char(out: &mut String, c: char)
    ensures
        final(out)@ == old(out)@ + escape_char(c),
{
    if c == '"' {
        out.append("\\\"");
        proof {
            reveal_strlit("\\\"");
            assert(final(out)@ =~= old(out)@ + escape_char(c));
        }
    } else if c == '\\' {
        out.append("\\\\");
        proof {
            reveal_strlit("\\\\");
            assert(final(out)@ =~= old(out)@ + escape_char(c));
        }
    } else if c == '\n' {
        out.append("\\n");
        proof {
            reveal_strlit("\\n");
            assert(final(out)@ =~= old(out)@ + escape_char(c));
        }
    } else if c == '\r' {
        out.append("\\r");
        proof {
            reveal_strlit("\\r");
            assert(final(out)@ =~= old(out)@ + escape_char(c));
        }
    } else if c == '\t' {
        out.append("\\t");
        proof {
            reveal_strlit("\\t");
            assert(final(out)@ =~= old(out)@ + escape_char(c));
        }
    } else if (c as u32) < 0x20 {
        out.append("\\u00");
        let hi = hex_digit_to_char((c as u32) / 16);
        let lo = hex_digit_to_char((c as u32) % 16);
        push_char(out, hi);
        push_char(out, lo);
        proof {
            reveal_strlit("\\u00");
            assert(final(out)@ =~= old(out)@ + escape_char(c));
        }
    } else {
        push_char(out, c);
        proof {
            assert(final(out)@ =~= old(out)@ + escape_char(c));
        }
    }
}

/// Appends the escaped form of `s` to `out`.
fn append_escaped(out: &mut String, s: &str)
    ensures
        final(out)@ == old(out)@ + json_escaped(s@),
{
    let n: usize = s.unicode_len();
    let mut i: usize = 0;
    while i < n
        invariant
            i <= n,
            n == s@.len(),
            out@ == old(out)@ + json_escaped(s@.take(i as int)),
        decreases n - i,
    {
        let c = s.get_char(i);
        append_escaped_char(out, c);
        proof {
            assert(s@.take(i + 1 as int).drop_last() =~= s@.take(i as int));
            assert(s@.take(i + 1 as int).last() == s@[i as int]);
            assert(out@ =~= old(out)@ + json_escaped(s@.take(i + 1 as int)));
        }
        i = i + 1;
    }
    proof {
        assert(s@.take(n as int) =~= s@);
    }
}

/// The fixed editor settings block of a fresh project's metadata.
pub open spec fn settings_text() -> Seq<char> {
    "{\"title\":\"\",\"editable\":false,\"vr\":false,\"renderer\":{\"antialias\":true,\"shadows\":true,\"shadowType\":1,\"toneMapping\":0,\"toneMappingExposure\":1},\"defaults\":{\"castShadows\":false,\"receiveShadows\":false,\"material\":null}}"@
}

/// The metadata document of a project created as `name` at time `now`:
/// name, created, modified, version and the default editor settings.
pub open spec fn metadata_text(name: Seq<char>, now: u64) -> Seq<char> {
    "{\"name\":\""@ + json_escaped(name) + "\",\"created\":"@ + dec_digits(now as nat)
        + ",\"modified\":"@ + dec_digits(now as nat) + ",\"version\":\"1.0.0\",\"settings\":"@
        + settings_text() + "}"@
}

/// The initial scene document: an empty scene graph with default
/// project render settings and no history.
pub open spec fn scene_text() -> Seq<char> {
    "{\"metadata\":{},\"project\":{\"shadows\":true,\"shadowType\":1,\"toneMapping\":0,\"toneMappingExposure\":1},\"camera\":{\"object\":{\"type\":\"PerspectiveCamera\",\"name\":\"Camera\",\"layers\":1,\"fov\":50,\"zoom\":1,\"far\":1000,\"focus\":10,\"aspect\":1,\"filmGauge\":35,\"filmOffset\":0}},\"scene\":{\"object\":{\"type\":\"Scene\",\"name\":\"Scene\",\"layers\":1,\"matrix\":[1,0,0,0,0,1,0,0,0,0,1,0,0,0,0,1],\"children\":[]}},\"scripts\":{},\"history\":{\"undos\":[],\"redos\":[]},\"environment\":null}"@
}

/// Builds the metadata document for a project named `name` created at `now`.
pub fn metadata_document(name: &str, now: u64) -> (r: String)
    ensures
        r@ == metadata_text(name@, now),
{
    let mut out = String::new();
    out.append("{\"name\":\"");
    append_escaped(&mut out, name);
    out.append("\",\"created\":");
    let digits = u64_dec_chars(now);
    append_chars(&mut out, &digits);
    out.append(",\"modified\":");
    append_chars(&mut out, &digits);
    out.append(",\"version\":\"1.0.0\",\"settings\":");
    out.append(
        "{\"title\":\"\",\"editable\":false,\"vr\":false,\"renderer\":{\"antialias\":true,\"shadows\":true,\"shadowType\":1,\"toneMapping\":0,\"toneMappingExposure\":1},\"defaults\":{\"castShadows\":false,\"receiveShadows\":false,\"material\":null}}",
    );
    out.append("}");
    proof {
        assert(out@ =~= metadata_text(name@, now));
    }
    out
}

/// Builds the initial scene document.
pub fn scene_document() -> (r: String)
    ensures
        r@ == scene_text(),
{
    let out =
        "{\"metadata\":{},\"project\":{\"shadows\":true,\"shadowType\":1,\"toneMapping\":0,\"toneMappingExposure\":1},\"camera\":{\"object\":{\"type\":\"PerspectiveCamera\",\"name\":\"Camera\",\"layers\":1,\"fov\":50,\"zoom\":1,\"far\":1000,\"focus\":10,\"aspect\":1,\"filmGauge\":35,\"filmOffset\":0}},\"scene\":{\"object\":{\"type\":\"Scene\",\"name\":\"Scene\",\"layers\":1,\"matrix\":[1,0,0,0,0,1,0,0,0,0,1,0,0,0,0,1],\"children\":[]}},\"scripts\":{},\"history\":{\"undos\":[],\"redos\":[]},\"environment\":null}".to_owned();
    out
}

/// Appends every character of `chars` to `out`.
fn append_chars(out: &mut String, chars: &Vec<char>)
    ensures
        final(out)@ == old(out)@ + chars@,
{
    let n: usize = chars.len();
    let mut i: usize = 0;
    while i < n
        invariant
            i <= n,
            n == chars@.len(),
            out@ == old(out)@ + chars@.take(i as int),
        decreases n - i,
    {
        push_char(out, chars[i]);
        proof {
            assert(old(out)@ + chars@.take(i as int).push(chars@[i as int]) =~= old(out)@
                + chars@.take(i + 1 as int));
        }
        i = i + 1;
    }
    proof {
        assert(chars@.take(n as int) =~= chars@);
    }
}

} // verus!
