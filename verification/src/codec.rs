//! The textual serialization of the device directory.
//!
//! This format is the cache payload: every stored directory is the encoding
//! of some `Devices` value, and a stored payload that does not decode is
//! corrupt by definition.  Each device is three escaped string fields
//! (identifier, model, name) each terminated by `,`, two capability flag
//! characters, and a closing `;`; the escape character `\` protects the two
//! separators and itself inside a field.  Decoding is the exact inverse of
//! encoding: `lemma_directory_round_trip` proves that every encoded
//! directory decodes to itself.

use vstd::prelude::*;

use crate::device::{records_view, Device, DeviceView, Devices};

verus! {

/// Field and record separators of the payload format.
pub open spec fn is_sep(c: char) -> bool {
    c == ',' || c == ';'
}

/// Characters that must be escaped inside a field.
pub open spec fn is_special(c: char) -> bool {
    c == '\\' || is_sep(c)
}

/// The escaped form of one field.
pub open spec fn esc(s: Seq<char>) -> Seq<char>
    decreases s.len(),
{
    if s.len() == 0 {
        Seq::empty()
    } else {
        (if is_special(s[0]) {
            seq!['\\', s[0]]
        } else {
            seq![s[0]]
        }) + esc(s.drop_first())
    }
}

/// The character that stores one capability flag.
pub open spec fn flag_char(b: bool) -> char {
    if b {
        '1'
    } else {
        '0'
    }
}

/// The capability flag stored by a character, if any.
pub open spec fn flag_val(c: char) -> Option<bool> {
    if c == '1' {
        Some(true)
    } else if c == '0' {
        Some(false)
    } else {
        None
    }
}

/// The encoding of one device record.
pub open spec fn enc_device(d: DeviceView) -> Seq<char> {
    esc(d.device) + seq![','] + esc(d.model) + seq![','] + esc(d.name) + seq![','] + seq![
        flag_char(d.controllable),
        flag_char(d.retrievable),
        ';',
    ]
}

/// The encoding of a whole directory: the device encodings in order.
pub open spec fn enc_directory(ds: Seq<DeviceView>) -> Seq<char>
    decreases ds.len(),
{
    if ds.len() == 0 {
        Seq::empty()
    } else {
        enc_device(ds[0]) + enc_directory(ds.drop_first())
    }
}

/// Reads one escaped field: the field's chars, the separator that ended it,
/// and the rest of the input.  `None` on truncated or malformed input.
pub open spec fn unesc_field(s: Seq<char>) -> Option<(Seq<char>, char, Seq<char>)>
    decreases s.len(),
{
    if s.len() == 0 {
        None
    } else if s[0] == '\\' {
        if s.len() >= 2 && is_special(s[1]) {
            match unesc_field(s.skip(2)) {
                Some((f, t, r)) => Some((seq![s[1]] + f, t, r)),
                None => None,
            }
        } else {
            None
        }
    } else if is_sep(s[0]) {
        Some((Seq::empty(), s[0], s.drop_first()))
    } else {
        match unesc_field(s.drop_first()) {
            Some((f, t, r)) => Some((seq![s[0]] + f, t, r)),
            None => None,
        }
    }
}

/// Decodes one device record from the front of the input, returning it with
/// the rest of the input.
pub open spec fn dec_device(s: Seq<char>) -> Option<(DeviceView, Seq<char>)> {
    match unesc_field(s) {
        None => None,
        Some((id, t1, r1)) => if t1 != ',' {
            None
        } else {
            match unesc_field(r1) {
                None => None,
                Some((model, t2, r2)) => if t2 != ',' {
                    None
                } else {
                    match unesc_field(r2) {
                        None => None,
                        Some((name, t3, r3)) => if t3 != ',' {
                            None
                        } else if r3.len() >= 3 && r3[2] == ';' {
                            match (flag_val(r3[0]), flag_val(r3[1])) {
                                (Some(c), Some(rt)) => Some(
                                    (
                                        DeviceView {
                                            device: id,
                                            model,
                                            name,
                                            controllable: c,
                                            retrievable: rt,
                                        },
                                        r3.skip(3),
                                    ),
                                ),
                                _ => None,
                            }
                        } else {
                            None
                        },
                    }
                },
            }
        },
    }
}

/// Decodes a whole payload: the directory it stores, or `None` if the
/// payload is not the encoding of any directory.
pub open spec fn dec_directory(s: Seq<char>) -> Option<Seq<DeviceView>>
    decreases s.len(),
{
    if s.len() == 0 {
        Some(Seq::empty())
    } else {
        match dec_device(s) {
            None => None,
            Some((d, rest)) => if rest.len() < s.len() {
                match dec_directory(rest) {
                    None => None,
                    Some(ds) => Some(seq![d] + ds),
                }
            } else {
                None
            },
        }
    }
}

/// Reading an escaped field back undoes the escaping: the field, its
/// terminator, and the rest of the input come back exactly.
pub proof fn lemma_unesc_esc(s: Seq<char>, t: char, rest: Seq<char>)
    requires
        is_sep(t),
    ensures
        unesc_field(esc(s) + seq![t] + rest) == Some((s, t, rest)),
    decreases s.len(),
{
    let input = esc(s) + seq![t] + rest;
    if s.len() == 0 {
        assert(input =~= seq![t] + rest);
        assert(input[0] == t);
        assert(input.drop_first() =~= rest);
        assert(s =~= Seq::<char>::empty());
    } else if is_special(s[0]) {
        let tail = esc(s.drop_first()) + seq![t] + rest;
        assert(input =~= seq!['\\', s[0]] + tail);
        assert(input[0] == '\\');
        assert(input[1] == s[0]);
        assert(input.skip(2) =~= tail);
        lemma_unesc_esc(s.drop_first(), t, rest);
        assert(seq![s[0]] + s.drop_first() =~= s);
    } else {
        let tail = esc(s.drop_first()) + seq![t] + rest;
        assert(input =~= seq![s[0]] + tail);
        assert(input[0] == s[0]);
        assert(input.drop_first() =~= tail);
        lemma_unesc_esc(s.drop_first(), t, rest);
        assert(seq![s[0]] + s.drop_first() =~= s);
    }
}

/// Decoding one encoded device from the front of the input returns that
/// device and the rest of the input; a device encoding is never empty.
pub proof fn lemma_dec_enc_device(d: DeviceView, rest: Seq<char>)
    ensures
        dec_device(enc_device(d) + rest) == Some((d, rest)),
        enc_device(d).len() > 0,
{
    let flags = seq![flag_char(d.controllable), flag_char(d.retrievable), ';'];
    let r3 = flags + rest;
    let r2 = esc(d.name) + seq![','] + r3;
    let r1 = esc(d.model) + seq![','] + r2;
    let input = enc_device(d) + rest;
    assert(input =~= esc(d.device) + seq![','] + r1);
    lemma_unesc_esc(d.device, ',', r1);
    lemma_unesc_esc(d.model, ',', r2);
    lemma_unesc_esc(d.name, ',', r3);
    assert(r3[0] == flag_char(d.controllable));
    assert(r3[1] == flag_char(d.retrievable));
    assert(r3[2] == ';');
    assert(r3.skip(3) =~= rest);
    assert(flag_val(flag_char(d.controllable)) == Some(d.controllable));
    assert(flag_val(flag_char(d.retrievable)) == Some(d.retrievable));
}

/// Round trip: decoding the encoding of any directory yields exactly that
/// directory.  The cache never hands back a different directory than the
/// one that was stored.
pub proof fn lemma_directory_round_trip(ds: Seq<DeviceView>)
    ensures
        dec_directory(enc_directory(ds)) == Some(ds),
    decreases ds.len(),
{
    if ds.len() == 0 {
        assert(enc_directory(ds) =~= Seq::<char>::empty());
        assert(ds =~= Seq::<DeviceView>::empty());
    } else {
        let tail_enc = enc_directory(ds.drop_first());
        let input = enc_directory(ds);
        assert(input == enc_device(ds[0]) + tail_enc);
        lemma_dec_enc_device(ds[0], tail_enc);
        assert(tail_enc.len() < input.len());
        lemma_directory_round_trip(ds.drop_first());
        assert(seq![ds[0]] + ds.drop_first() =~= ds);
    }
}

/// The payload determines the directory: two directories with the same
/// encoding are the same directory.
pub proof fn lemma_payload_determines_directory(a: Seq<DeviceView>, b: Seq<DeviceView>)
    requires
        enc_directory(a) == enc_directory(b),
    ensures
        a == b,
{
    lemma_directory_round_trip(a);
    lemma_directory_round_trip(b);
}

/// Escaping distributes over concatenation.
proof fn lemma_esc_concat(a: Seq<char>, b: Seq<char>)
    ensures
        esc(a + b) == esc(a) + esc(b),
    decreases a.len(),
{
    if a.len() == 0 {
        assert(a + b =~= b);
        assert(esc(a) + esc(b) =~= esc(b));
    } else {
        assert((a + b).drop_first() =~= a.drop_first() + b);
        assert((a + b)[0] == a[0]);
        assert(a + b =~= seq![a[0]] + (a.drop_first() + b));
        lemma_esc_concat(a.drop_first(), b);
        let head: Seq<char> = if is_special(a[0]) {
            seq!['\\', a[0]]
        } else {
            seq![a[0]]
        };
        assert(esc(a + b) == head + (esc(a.drop_first()) + esc(b)));
        assert(esc(a) == head + esc(a.drop_first()));
        assert(head + (esc(a.drop_first()) + esc(b)) =~= (head + esc(a.drop_first())) + esc(b));
    }
}

/// The escaping of a single character.
proof fn lemma_esc_one(c: char)
    ensures
        esc(seq![c]) == if is_special(c) {
            seq!['\\', c]
        } else {
            seq![c]
        },
{
    assert(seq![c].len() == 1);
    assert(seq![c][0] == c);
    assert(seq![c].drop_first() =~= Seq::<char>::empty());
    assert(esc(Seq::<char>::empty()) == Seq::<char>::empty());
    let head: Seq<char> = if is_special(c) {
        seq!['\\', c]
    } else {
        seq![c]
    };
    assert(head + Seq::<char>::empty() =~= head);
    assert(esc(seq![c]) =~= head);
}

/// Appends the escaped form of `s` to `out`.
fn push_escaped_field(out: &mut Vec<char>, s: &str)
    ensures
        final(out)@ == old(out)@ + esc(s@),
{
    let n = s.unicode_len();
    let mut i: usize = 0;
    while i < n
        invariant
            i <= n,
            n == s@.len(),
            out@ == old(out)@ + esc(s@.take(i as int)),
        decreases n - i,
    {
        let c = s.get_char(i);
        if c == '\\' || c == ',' || c == ';' {
            out.push('\\');
        }
        out.push(c);
        proof {
            assert(s@.take(i as int + 1) =~= s@.take(i as int) + seq![s@[i as int]]);
            lemma_esc_concat(s@.take(i as int), seq![s@[i as int]]);
            lemma_esc_one(s@[i as int]);
            assert(out@ =~= old(out)@ + esc(s@.take(i as int + 1)));
        }
        i = i + 1;
    }
    proof {
        assert(s@.take(n as int) =~= s@);
    }
}

/// Appends the encoding of one device record to `out`.
fn push_device(out: &mut Vec<char>, d: &Device)
    ensures
        final(out)@ == old(out)@ + enc_device(d@),
{
    push_escaped_field(out, d.device.as_str());
    out.push(',');
    push_escaped_field(out, d.model.as_str());
    out.push(',');
    push_escaped_field(out, d.name.as_str());
    out.push(',');
    out.push(if d.controllable {
        '1'
    } else {
        '0'
    });
    out.push(if d.retrievable {
        '1'
    } else {
        '0'
    });
    out.push(';');
    proof {
        assert(out@ =~= old(out)@ + enc_device(d@));
    }
}

/// The encoding of a directory distributes over concatenation.
proof fn lemma_enc_directory_concat(a: Seq<DeviceView>, b: Seq<DeviceView>)
    ensures
        enc_directory(a + b) == enc_directory(a) + enc_directory(b),
    decreases a.len(),
{
    if a.len() == 0 {
        assert(a + b =~= b);
        assert(enc_directory(a) + enc_directory(b) =~= enc_directory(b));
    } else {
        assert((a + b).drop_first() =~= a.drop_first() + b);
        assert((a + b)[0] == a[0]);
        lemma_enc_directory_concat(a.drop_first(), b);
        assert(enc_device(a[0]) + (enc_directory(a.drop_first()) + enc_directory(b)) =~= (
        enc_device(a[0]) + enc_directory(a.drop_first())) + enc_directory(b));
    }
}

/// The encoding of a one-device directory.
proof fn lemma_enc_directory_one(d: DeviceView)
    ensures
        enc_directory(seq![d]) == enc_device(d),
{
    assert(seq![d].len() == 1);
    assert(seq![d][0] == d);
    assert(seq![d].drop_first() =~= Seq::<DeviceView>::empty());
    assert(enc_directory(Seq::<DeviceView>::empty()) == Seq::<char>::empty());
    assert(enc_device(d) + Seq::<char>::empty() =~= enc_device(d));
    assert(enc_directory(seq![d]) =~= enc_device(d));
}

/// Encodes a directory into its cache payload.
pub fn encode_directory(d: &Devices) -> (p: Vec<char>)
    ensures
        p@ == enc_directory(d@),
{
    let mut out: Vec<char> = Vec::new();
    let n = d.devices.len();
    let mut i: usize = 0;
    while i < n
        invariant
            i <= n,
            n == d.devices@.len(),
            out@ == enc_directory(records_view(d.devices@).take(i as int)),
        decreases n - i,
    {
        push_device(&mut out, &d.devices[i]);
        proof {
            let rv = records_view(d.devices@);
            assert(rv[i as int] == d.devices@[i as int]@);
            assert(rv.take(i as int + 1) =~= rv.take(i as int) + seq![rv[i as int]]);
            lemma_enc_directory_concat(rv.take(i as int), seq![rv[i as int]]);
            lemma_enc_directory_one(rv[i as int]);
        }
        i = i + 1;
    }
    proof {
        assert(records_view(d.devices@).take(n as int) =~= d@);
    }
    out
}

/// The result of reading one escaped field with `pre` already read.
spec fn with_prefix(pre: Seq<char>, o: Option<(Seq<char>, char, Seq<char>)>) -> Option<
    (Seq<char>, char, Seq<char>),
> {
    match o {
        Some((f, t, r)) => Some((pre + f, t, r)),
        None => None,
    }
}

/// Relies on `String`'s `FromIterator<char>` implementation from std:
/// collecting a vector of chars yields the string of exactly those chars.
#[verifier::external_body]
fn chars_to_string(v: Vec<char>) -> (s: String)
    ensures
        s@ == v@,
{
    v.into_iter().collect()
}

/// Reads one escaped field of `p` starting at `start`; on success returns
/// the field, its terminator, and the position after the terminator.
fn take_field(p: &Vec<char>, start: usize) -> (r: Option<(String, char, usize)>)
    requires
        start <= p@.len(),
    ensures
        match r {
            Some((f, t, next)) => unesc_field(p@.skip(start as int)) == Some(
                (f@, t, p@.skip(next as int)),
            ) && start < next <= p@.len(),
            None => unesc_field(p@.skip(start as int)) is None,
        },
{
    let n = p.len();
    let mut i: usize = start;
    let mut field: Vec<char> = Vec::new();
    proof {
        match unesc_field(p@.skip(start as int)) {
            Some((f, t, r)) => {
                assert(Seq::<char>::empty() + f =~= f);
            },
            None => {},
        }
    }
    while i < n
        invariant
            start <= i <= n,
            n == p@.len(),
            unesc_field(p@.skip(start as int)) == with_prefix(
                field@,
                unesc_field(p@.skip(i as int)),
            ),
        decreases n - i,
    {
        let c = p[i];
        proof {
            assert(p@.skip(i as int)[0] == p@[i as int]);
            assert(p@.skip(i as int).len() == n - i);
        }
        if c == '\\' {
            if i + 1 >= n {
                proof {
                    assert(unesc_field(p@.skip(i as int)) is None);
                }
                return None;
            }
            let c2 = p[i + 1];
            proof {
                assert(p@.skip(i as int)[1] == p@[i as int + 1]);
            }
            if !(c2 == '\\' || c2 == ',' || c2 == ';') {
                proof {
                    assert(unesc_field(p@.skip(i as int)) is None);
                }
                return None;
            }
            let ghost fprev = field@;
            field.push(c2);
            proof {
                assert(p@.skip(i as int).skip(2) =~= p@.skip(i as int + 2));
                assert(field@ =~= fprev + seq![c2]);
                match unesc_field(p@.skip(i as int + 2)) {
                    Some((f, t, r)) => {
                        assert(fprev + (seq![c2] + f) =~= (fprev + seq![c2]) + f);
                    },
                    None => {},
                }
            }
            i = i + 2;
        } else if c == ',' || c == ';' {
            proof {
                assert(p@.skip(i as int).drop_first() =~= p@.skip(i as int + 1));
                assert(field@ + Seq::<char>::empty() =~= field@);
            }
            let f = chars_to_string(field);
            return Some((f, c, i + 1));
        } else {
            let ghost fprev = field@;
            field.push(c);
            proof {
                assert(p@.skip(i as int).drop_first() =~= p@.skip(i as int + 1));
                assert(field@ =~= fprev + seq![c]);
                match unesc_field(p@.skip(i as int + 1)) {
                    Some((f, t, r)) => {
                        assert(fprev + (seq![c] + f) =~= (fprev + seq![c]) + f);
                    },
                    None => {},
                }
            }
            i = i + 1;
        }
    }
    proof {
        assert(p@.skip(n as int) =~= Seq::<char>::empty());
    }
    None
}

/// Decodes one device record of `p` starting at `start`; on success returns
/// the record and the position after it.
fn take_device(p: &Vec<char>, start: usize) -> (r: Option<(Device, usize)>)
    requires
        start <= p@.len(),
    ensures
        match r {
            Some((d, next)) => dec_device(p@.skip(start as int)) == Some(
                (d@, p@.skip(next as int)),
            ) && start < next <= p@.len(),
            None => dec_device(p@.skip(start as int)) is None,
        },
{
    let n = p.len();
    let f1 = match take_field(p, start) {
        None => {
            return None;
        },
        Some((f, t, next)) => {
            if t != ',' {
                return None;
            }
            (f, next)
        },
    };
    let f2 = match take_field(p, f1.1) {
        None => {
            return None;
        },
        Some((f, t, next)) => {
            if t != ',' {
                return None;
            }
            (f, next)
        },
    };
    let f3 = match take_field(p, f2.1) {
        None => {
            return None;
        },
        Some((f, t, next)) => {
            if t != ',' {
                return None;
            }
            (f, next)
        },
    };
    let j = f3.1;
    if n - j < 3 {
        return None;
    }
    proof {
        assert(p@.skip(j as int)[0] == p@[j as int]);
        assert(p@.skip(j as int)[1] == p@[j as int + 1]);
        assert(p@.skip(j as int)[2] == p@[j as int + 2]);
    }
    let c1 = p[j];
    let c2 = p[j + 1];
    if p[j + 2] != ';' {
        return None;
    }
    let controllable = match c1 {
        '1' => true,
        '0' => false,
        _ => {
            return None;
        },
    };
    let retrievable = match c2 {
        '1' => true,
        '0' => false,
        _ => {
            return None;
        },
    };
    let d = Device { device: f1.0, model: f2.0, name: f3.0, controllable, retrievable };
    proof {
        assert(p@.skip(j as int).skip(3) =~= p@.skip(j as int + 3));
    }
    Some((d, j + 3))
}

/// Decodes a cache payload back into the directory it stores, or `None`
/// if the payload is corrupt.
pub fn decode_directory(p: &Vec<char>) -> (r: Option<Devices>)
    ensures
        match r {
            Some(d) => dec_directory(p@) == Some(d@),
            None => dec_directory(p@) is None,
        },
{
    let n = p.len();
    let mut i: usize = 0;
    let mut out: Vec<Device> = Vec::new();
    proof {
        assert(p@.skip(0) =~= p@);
        assert(records_view(out@) =~= Seq::<DeviceView>::empty());
    }
    while i < n
        invariant
            i <= n,
            n == p@.len(),
            match dec_directory(p@.skip(i as int)) {
                Some(ds) => dec_directory(p@) == Some(records_view(out@) + ds),
                None => dec_directory(p@) is None,
            },
        decreases n - i,
    {
        let ghost prev = out@;
        match take_device(p, i) {
            None => {
                return None;
            },
            Some((d, next)) => {
                proof {
                    assert(p@.skip(i as int).len() == n - i);
                    assert(p@.skip(next as int).len() == n - next);
                }
                out.push(d);
                proof {
                    assert(records_view(out@) =~= records_view(prev) + seq![d@]);
                    match dec_directory(p@.skip(next as int)) {
                        Some(ds) => {
                            assert(records_view(prev) + (seq![d@] + ds) =~= (records_view(prev)
                                + seq![d@]) + ds);
                        },
                        None => {},
                    }
                }
                i = next;
            },
        }
    }
    proof {
        assert(p@.skip(n as int) =~= Seq::<char>::empty());
        assert(records_view(out@) + Seq::<DeviceView>::empty() =~= records_view(out@));
    }
    Some(Devices { devices: out })
}

} // verus!
