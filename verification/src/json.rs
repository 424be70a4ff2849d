//! JSON encoding of a device snapshot, as the query service sends it: an
//! array of objects with a `name` field (a string, or `null` when the
//! peripheral advertised none) and an `address` field, in snapshot order.
//!
//! The encoding is specified character by character, so that what a snapshot
//! serializes to is a function of the snapshot value alone.

use vstd::prelude::*;

use crate::device::{devices_view, Device, DeviceView};
use crate::store::SnapshotStore;

verus! {

/// The hexadecimal digit for `n`, lower case.
pub open spec fn hex_digit_char(n: int) -> char
    recommends
        0 <= n < 16,
{
    if n == 0 {
        '0'
    } else if n == 1 {
        '1'
    } else if n == 2 {
        '2'
    } else if n == 3 {
        '3'
    } else if n == 4 {
        '4'
    } else if n == 5 {
        '5'
    } else if n == 6 {
        '6'
    } else if n == 7 {
        '7'
    } else if n == 8 {
        '8'
    } else if n == 9 {
        '9'
    } else if n == 10 {
        'a'
    } else if n == 11 {
        'b'
    } else if n == 12 {
        'c'
    } else if n == 13 {
        'd'
    } else if n == 14 {
        'e'
    } else {
        'f'
    }
}

/// How one character appears inside a JSON string: quote and backslash are
/// escaped, control characters get their short escape or a `\u00` form, and
/// every other character stands as itself.
pub open spec fn escape_char(c: char) -> Seq<char> {
    if c == '"' {
        seq!['\\', '"']
    } else if c == '\\' {
        seq!['\\', '\\']
    } else if (c as u32) < 32 {
        if c == '\u{8}' {
            seq!['\\', 'b']
        } else if c == '\t' {
            seq!['\\', 't']
        } else if c == '\n' {
            seq!['\\', 'n']
        } else if c == '\u{c}' {
            seq!['\\', 'f']
        } else if c == '\r' {
            seq!['\\', 'r']
        } else {
            seq!['\\', 'u', '0', '0', hex_digit_char((c as u32) as int / 16), hex_digit_char(
                (c as u32) as int % 16,
            )]
        }
    } else {
        seq![c]
    }
}

/// The body of a JSON string: each character escaped in order.
pub open spec fn escape_string(s: Seq<char>) -> Seq<char>
    decreases s.len(),
{
    if s.len() == 0 {
        Seq::<char>::empty()
    } else {
        escape_string(s.drop_last()) + escape_char(s.last())
    }
}

/// A JSON string: the escaped body between double quotes.
pub open spec fn json_string(s: Seq<char>) -> Seq<char> {
    seq!['"'] + escape_string(s) + seq!['"']
}

/// A device's `name` field value: its name as a JSON string, or `null`.
pub open spec fn json_name(n: Option<Seq<char>>) -> Seq<char> {
    match n {
        Some(s) => json_string(s),
        None => "null"@,
    }
}

/// One device as a JSON object.
pub open spec fn json_device(d: DeviceView) -> Seq<char> {
    "{\"name\":"@ + json_name(d.name) + ",\"address\":"@ + json_string(d.address) + "}"@
}

/// The comma-separated objects of a snapshot, in snapshot order.
pub open spec fn json_items(s: Seq<DeviceView>) -> Seq<char>
    decreases s.len(),
{
    if s.len() == 0 {
        Seq::<char>::empty()
    } else if s.len() == 1 {
        json_device(s[0])
    } else {
        json_items(s.drop_last()) + seq![','] + json_device(s.last())
    }
}

/// A whole snapshot as a JSON array.
pub open spec fn json_devices(s: Seq<DeviceView>) -> Seq<char> {
    seq!['['] + json_items(s) + seq![']']
}

/// Relies on `String::push`: appends the given character to the end of the
/// string.
#[verifier::external_body]
fn push_char(out: &mut String, c: char)
    ensures
        final(out)@ == old(out)@.push(c),
{
    out.push(c);
}

/// The hexadecimal digit for `n`, lower case.
fn hex_char(n: u8) -> (r: char)
    requires
        n < 16,
    ensures
        r == hex_digit_char(n as int),
{
    if n == 0 {
        '0'
    } else if n == 1 {
        '1'
    } else if n == 2 {
        '2'
    } else if n == 3 {
        '3'
    } else if n == 4 {
        '4'
    } else if n == 5 {
        '5'
    } else if n == 6 {
        '6'
    } else if n == 7 {
        '7'
    } else if n == 8 {
        '8'
    } else if n == 9 {
        '9'
    } else if n == 10 {
        'a'
    } else if n == 11 {
        'b'
    } else if n == 12 {
        'c'
    } else if n == 13 {
        'd'
    } else if n == 14 {
        'e'
    } else {
        'f'
    }
}

/// Appends one character of a JSON string body, escaped as the encoding says.
fn append_escaped_char(out: &mut String, c: char)
    ensures
        final(out)@ == old(out)@ + escape_char(c),
{
    if c == '"' {
        out.append("\\\"");
        proof {
            reveal_strlit("\\\"");
            assert(("\\\""@) =~= escape_char(c));
        }
    } else if c == '\\' {
        out.append("\\\\");
        proof {
            reveal_strlit("\\\\");
            assert(("\\\\"@) =~= escape_char(c));
        }
    } else if (c as u32) < 32 {
        if c == '\u{8}' {
            out.append("\\b");
            proof {
                reveal_strlit("\\b");
                assert(("\\b"@) =~= escape_char(c));
            }
        } else if c == '\t' {
            out.append("\\t");
            proof {
                reveal_strlit("\\t");
                assert(("\\t"@) =~= escape_char(c));
            }
        } else if c == '\n' {
            out.append("\\n");
            proof {
                reveal_strlit("\\n");
                assert(("\\n"@) =~= escape_char(c));
            }
        } else if c == '\u{c}' {
            out.append("\\f");
            proof {
                reveal_strlit("\\f");
                assert(("\\f"@) =~= escape_char(c));
            }
        } else if c == '\r' {
            out.append("\\r");
            proof {
                reveal_strlit("\\r");
                assert(("\\r"@) =~= escape_char(c));
            }
        } else {
            let ghost pre = out@;
            out.append("\\u00");
            let code = c as u32;
            push_char(out, hex_char((code / 16) as u8));
            push_char(out, hex_char((code % 16) as u8));
            proof {
                reveal_strlit("\\u00");
                assert(out@ =~= pre + escape_char(c));
            }
        }
    } else {
        push_char(out, c);
        proof {
            assert(old(out)@.push(c) =~= old(out)@ + escape_char(c));
        }
    }
}

/// Appends `s` as a JSON string, quotes and escaping included.
fn append_json_string(out: &mut String, s: &str)
    ensures
        final(out)@ == old(out)@ + json_string(s@),
{
    push_char(out, '"');
    let n = s.unicode_len();
    let mut i: usize = 0;
    while i < n
        invariant
            n == s@.len(),
            i <= n,
            out@ == old(out)@ + seq!['"'] + escape_string(s@.take(i as int)),
        decreases n - i,
    {
        let c = s.get_char(i);
        append_escaped_char(out, c);
        proof {
            assert(s@.take(i + 1 as int).drop_last() =~= s@.take(i as int));
            assert(s@.take(i + 1 as int).last() == s@[i as int]);
        }
        i = i + 1;
    }
    proof {
        assert(s@.take(n as int) =~= s@);
    }
    push_char(out, '"');
    proof {
        assert(out@ =~= old(out)@ + json_string(s@));
    }
}

/// Appends one device as a JSON object.
fn append_json_device(out: &mut String, d: &Device)
    ensures
        final(out)@ == old(out)@ + json_device(d@),
{
    out.append("{\"name\":");
    match &d.name {
        Some(n) => append_json_string(out, n.as_str()),
        None => out.append("null"),
    }
    out.append(",\"address\":");
    append_json_string(out, d.address.as_str());
    out.append("}");
    proof {
        assert(out@ =~= old(out)@ + json_device(d@));
    }
}

/// Serializes a snapshot as the JSON array the query service responds with.
/// The output is a function of the snapshot value alone.
pub fn serialize_devices(devices: &Vec<Device>) -> (r: String)
    ensures
        r@ == json_devices(devices_view(devices@)),
{
    let ghost dv = devices_view(devices@);
    let mut out = String::new();
    push_char(&mut out, '[');
    let n = devices.len();
    let mut i: usize = 0;
    while i < n
        invariant
            n == devices.len(),
            i <= n,
            dv == devices_view(devices@),
            dv.len() == n,
            out@ == seq!['['] + json_items(dv.take(i as int)),
        decreases n - i,
    {
        if i > 0 {
            push_char(&mut out, ',');
        }
        append_json_device(&mut out, &devices[i]);
        proof {
            assert(dv.take(i + 1 as int).drop_last() =~= dv.take(i as int));
            assert(dv.take(i + 1 as int).last() == dv[i as int]);
            assert(dv[i as int] == devices@[i as int]@);
            assert(out@ =~= seq!['['] + json_items(dv.take(i + 1 as int)));
        }
        i = i + 1;
    }
    proof {
        assert(dv.take(n as int) =~= dv);
    }
    push_char(&mut out, ']');
    proof {
        assert(out@ =~= json_devices(dv));
    }
    out
}

/// The query service's read path: takes a consistent read of the store and
/// serializes it. What goes on the wire is determined by the store's current
/// snapshot alone.
pub fn devices_response(store: &SnapshotStore) -> (r: String)
    ensures
        r@ == json_devices(store@),
{
    let devices = store.read();
    serialize_devices(&devices)
}

/// The empty snapshot — what the store holds before the first completed tick
/// — serializes to the empty JSON array, not to `null`.
pub proof fn lemma_empty_serializes_to_empty_array()
    ensures
        json_devices(Seq::<DeviceView>::empty()) == "[]"@,
{
    reveal_strlit("[]");
    assert(json_devices(Seq::<DeviceView>::empty()) =~= "[]"@);
}

/// Serialization is idempotent: equal snapshots serialize to identical
/// character output, however often they are serialized.
pub proof fn lemma_serialization_deterministic(a: Seq<DeviceView>, b: Seq<DeviceView>)
    requires
        a == b,
    ensures
        json_devices(a) == json_devices(b),
{
}

} // verus!
