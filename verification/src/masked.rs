//! Masked diagnostic rendering of messages.
//!
//! A message may mark a field as obfuscated (its value is replaced by
//! `"<obfuscated>"` in diagnostics) or hidden (it is left out entirely).
//! This module renders a message's shape — a named-field struct, a tuple
//! struct, a unit type, or an enum variant of any of those — to the text a
//! debug formatter would print, with those marks applied. Values are first
//! rendered to text by [`text_of_str`], [`text_of_u64`] and
//! [`text_of_i64`], so the contract of every renderer is exact
//! concatenation over sequences of characters.

use vstd::prelude::*;

verus! {

/// How a field takes part in diagnostic output.
#[derive(Debug, Clone, Copy, PartialEq, Eq, Structural)]
pub enum FieldMode {
    /// Rendered with its value.
    Shown,
    /// Rendered as the fixed text `"<obfuscated>"`.
    Obfuscated,
    /// Left out of the output entirely.
    Hidden,
}

/// One field of a named-field struct or struct variant, ready to render.
pub struct NamedField {
    /// The field's name.
    pub name: String,
    /// The field's value, already rendered to text.
    pub value: String,
    /// Whether the value is shown, obfuscated, or dropped.
    pub mode: FieldMode,
}

/// The mathematical value of a [`NamedField`].
pub struct NamedFieldView {
    pub name: Seq<char>,
    pub value: Seq<char>,
    pub mode: FieldMode,
}

impl View for NamedField {
    type V = NamedFieldView;

    open spec fn view(&self) -> NamedFieldView {
        NamedFieldView { name: self.name@, value: self.value@, mode: self.mode }
    }
}

/// One field of a tuple struct or tuple variant, ready to render.
pub struct TupleField {
    /// The field's value, already rendered to text.
    pub value: String,
    /// Whether the value is shown, obfuscated, or dropped.
    pub mode: FieldMode,
}

/// The mathematical value of a [`TupleField`].
pub struct TupleFieldView {
    pub value: Seq<char>,
    pub mode: FieldMode,
}

impl View for TupleField {
    type V = TupleFieldView;

    open spec fn view(&self) -> TupleFieldView {
        TupleFieldView { value: self.value@, mode: self.mode }
    }
}

/// The replacement text of an obfuscated value, quotes included.
pub open spec fn obfuscated_text() -> Seq<char> {
    "\"<obfuscated>\""@
}

/// The visible entries of a named-field list: hidden fields removed,
/// obfuscated values replaced.
pub open spec fn visible_named(fields: Seq<NamedFieldView>) -> Seq<(Seq<char>, Seq<char>)>
    decreases fields.len(),
{
    if fields.len() == 0 {
        Seq::empty()
    } else {
        let f = fields.last();
        let head = visible_named(fields.drop_last());
        if f.mode is Hidden {
            head
        } else if f.mode is Obfuscated {
            head.push((f.name, obfuscated_text()))
        } else {
            head.push((f.name, f.value))
        }
    }
}

/// The visible entries of a tuple-field list: hidden fields removed,
/// obfuscated values replaced.
pub open spec fn visible_tuple(fields: Seq<TupleFieldView>) -> Seq<Seq<char>>
    decreases fields.len(),
{
    if fields.len() == 0 {
        Seq::empty()
    } else {
        let f = fields.last();
        let head = visible_tuple(fields.drop_last());
        if f.mode is Hidden {
            head
        } else if f.mode is Obfuscated {
            head.push(obfuscated_text())
        } else {
            head.push(f.value)
        }
    }
}

/// `name: value` for one named entry.
pub open spec fn named_entry(e: (Seq<char>, Seq<char>)) -> Seq<char> {
    e.0 + ": "@ + e.1
}

/// Items joined by `", "`.
pub open spec fn comma_join(items: Seq<Seq<char>>) -> Seq<char>
    decreases items.len(),
{
    if items.len() == 0 {
        Seq::empty()
    } else if items.len() == 1 {
        items[0]
    } else {
        comma_join(items.drop_last()) + ", "@ + items.last()
    }
}

/// What a named-field shape renders to: `Name { a: 1, b: 2 }`, or just
/// `Name` when no field is visible.
pub open spec fn spec_render_named(name: Seq<char>, fields: Seq<NamedFieldView>) -> Seq<char> {
    let entries = visible_named(fields).map_values(|e: (Seq<char>, Seq<char>)| named_entry(e));
    if entries.len() == 0 {
        name
    } else {
        name + " { "@ + comma_join(entries) + " }"@
    }
}

/// What a tuple shape renders to: `Name(1, 2)`, or just `Name` when no
/// field is visible.
pub open spec fn spec_render_tuple(name: Seq<char>, fields: Seq<TupleFieldView>) -> Seq<char> {
    let entries = visible_tuple(fields);
    if entries.len() == 0 {
        name
    } else {
        name + "("@ + comma_join(entries) + ")"@
    }
}

/// Relies on `String::push`: appends exactly the one character.
#[verifier::external_body]
fn push_char(s: &mut String, c: char)
    ensures
        final(s)@ == old(s)@ + seq![c],
{
    s.push(c);
}

/// The decimal digits of `n`, most significant first, no sign and no
/// leading zeros (a lone zero for zero).
pub open spec fn dec_digits(n: nat) -> Seq<char>
    decreases n,
{
    if n < 10 {
        seq![((48 + n) as u8) as char]
    } else {
        dec_digits(n / 10) + seq![((48 + n % 10) as u8) as char]
    }
}

/// Render an unsigned integer in decimal.
pub fn text_of_u64(n: u64) -> (r: String)
    ensures
        r@ == dec_digits(n as nat),
    decreases n,
{
    if n < 10 {
        let mut s = String::new();
        push_char(&mut s, ((48 + n) as u8) as char);
        proof {
            assert(Seq::<char>::empty() + seq![((48 + n) as u8) as char] =~= dec_digits(n as nat));
        }
        s
    } else {
        let mut s = text_of_u64(n / 10);
        push_char(&mut s, ((48 + n % 10) as u8) as char);
        s
    }
}

/// Render a signed integer in decimal, with a leading minus sign when
/// negative.
pub fn text_of_i64(n: i64) -> (r: String)
    ensures
        n >= 0 ==> r@ == dec_digits(n as nat),
        n < 0 ==> r@ == seq!['-'] + dec_digits((-(n as int)) as nat),
{
    if n >= 0 {
        text_of_u64(n as u64)
    } else {
        let magnitude: u64 = ((-(n as i128)) as u64);
        let mut s = String::new();
        push_char(&mut s, '-');
        let digits = text_of_u64(magnitude);
        s.append(digits.as_str());
        proof {
            assert((Seq::<char>::empty() + seq!['-']) + dec_digits(magnitude as nat) =~= seq!['-']
                + dec_digits((-(n as int)) as nat));
        }
        s
    }
}

/// One character of an escaped string: quotes and backslashes gain a
/// backslash, everything else passes through.
pub open spec fn escaped_char(c: char) -> Seq<char> {
    if c == '"' {
        seq!['\\', '"']
    } else if c == '\\' {
        seq!['\\', '\\']
    } else {
        seq![c]
    }
}

/// A string's characters with quotes and backslashes escaped.
pub open spec fn escaped(s: Seq<char>) -> Seq<char>
    decreases s.len(),
{
    if s.len() == 0 {
        Seq::empty()
    } else {
        escaped(s.drop_last()) + escaped_char(s.last())
    }
}

/// What a string value renders to: its escaped characters in quotes.
pub open spec fn quoted(s: Seq<char>) -> Seq<char> {
    seq!['"'] + escaped(s) + seq!['"']
}

/// Render a string value as a debug formatter would: quoted, with quotes
/// and backslashes escaped.
pub fn text_of_str(value: &str) -> (r: String)
    ensures
        r@ == quoted(value@),
{
    let mut out = String::new();
    push_char(&mut out, '"');
    let n = value.unicode_len();
    let mut i: usize = 0;
    proof {
        assert(escaped(value@.take(0)) =~= Seq::<char>::empty());
        assert(Seq::<char>::empty() + seq!['"'] =~= seq!['"']);
    }
    while i < n
        invariant
            i <= n,
            n == value@.len(),
            out@ == seq!['"'] + escaped(value@.take(i as int)),
        decreases n - i,
    {
        let c = value.get_char(i);
        if c == '"' {
            push_char(&mut out, '\\');
            push_char(&mut out, '"');
        } else if c == '\\' {
            push_char(&mut out, '\\');
            push_char(&mut out, '\\');
        } else {
            push_char(&mut out, c);
        }
        proof {
            assert(value@.take(i + 1 as int).drop_last() =~= value@.take(i as int));
            assert(value@.take(i + 1 as int).last() == c);
            assert((seq!['"'] + escaped(value@.take(i as int))) + escaped_char(c) =~= seq!['"']
                + escaped(value@.take(i + 1 as int)));
        }
        i = i + 1;
    }
    push_char(&mut out, '"');
    proof {
        assert(value@.take(n as int) =~= value@);
        assert((seq!['"'] + escaped(value@)) + seq!['"'] =~= quoted(value@));
    }
    out
}

/// The name a variant renders under: `Enum::Variant`.
pub fn enum_variant_name(enum_name: &str, variant: &str) -> (r: String)
    ensures
        r@ == enum_name@ + "::"@ + variant@,
{
    let mut s = String::new();
    s.append(enum_name);
    s.append("::");
    s.append(variant);
    proof {
        assert(((Seq::<char>::empty() + enum_name@) + "::"@) + variant@ =~= enum_name@ + "::"@
            + variant@);
    }
    s
}

/// Render a unit shape: the bare name.
pub fn render_unit(name: &str) -> (r: String)
    ensures
        r@ == name@,
{
    let mut s = String::new();
    s.append(name);
    proof {
        assert(Seq::<char>::empty() + name@ =~= name@);
    }
    s
}

/// Render a named-field shape with its marks applied.
pub fn render_named_struct(name: &str, fields: &Vec<NamedField>) -> (r: String)
    ensures
        r@ == spec_render_named(name@, fields@.map_values(|f: NamedField| f@)),
{
    let ghost all = fields@.map_values(|f: NamedField| f@);
    let mut out = String::new();
    out.append(name);
    let mut shown: u64 = 0;
    let mut i: usize = 0;
    proof {
        assert(all.take(0) =~= Seq::<NamedFieldView>::empty());
        assert(visible_named(all.take(0)) =~= Seq::<(Seq<char>, Seq<char>)>::empty());
        assert(Seq::<char>::empty() + name@ =~= name@);
    }
    while i < fields.len()
        invariant
            i <= fields@.len(),
            all == fields@.map_values(|f: NamedField| f@),
            all.len() == fields@.len(),
            shown <= i,
            shown == visible_named(all.take(i as int)).len(),
            ({
                let entries = visible_named(all.take(i as int)).map_values(
                    |e: (Seq<char>, Seq<char>)| named_entry(e),
                );
                if shown == 0 {
                    out@ == name@
                } else {
                    out@ == name@ + " { "@ + comma_join(entries)
                }
            }),
        decreases fields@.len() - i,
    {
        let f = &fields[i];
        proof {
            assert(all.take(i + 1 as int).drop_last() =~= all.take(i as int));
            assert(all.take(i + 1 as int).last() == f@);
        }
        match f.mode {
            FieldMode::Hidden => {},
            _ => {
                if shown == 0 {
                    out.append(" { ");
                } else {
                    out.append(", ");
                }
                out.append(f.name.as_str());
                out.append(": ");
                match f.mode {
                    FieldMode::Obfuscated => {
                        out.append("\"<obfuscated>\"");
                    },
                    _ => {
                        out.append(f.value.as_str());
                    },
                }
                shown = shown + 1;
                proof {
                    let prev = visible_named(all.take(i as int)).map_values(
                        |e: (Seq<char>, Seq<char>)| named_entry(e),
                    );
                    let cur = visible_named(all.take(i + 1 as int)).map_values(
                        |e: (Seq<char>, Seq<char>)| named_entry(e),
                    );
                    let entry_text = if f@.mode is Obfuscated {
                        named_entry((f@.name, obfuscated_text()))
                    } else {
                        named_entry((f@.name, f@.value))
                    };
                    assert(cur.drop_last() =~= prev);
                    assert(cur.last() == entry_text);
                    if shown == 1 {
                        assert(comma_join(cur) == entry_text);
                        assert(f@.name + ": "@ + (if f@.mode is Obfuscated {
                            obfuscated_text()
                        } else {
                            f@.value
                        }) =~= entry_text);
                        assert(out@ =~= name@ + " { "@ + comma_join(cur));
                    } else {
                        assert(comma_join(cur) == comma_join(prev) + ", "@ + entry_text);
                        assert(out@ =~= name@ + " { "@ + comma_join(cur));
                    }
                }
            },
        }
        proof {
            if f@.mode is Hidden {
                assert(visible_named(all.take(i + 1 as int)) =~= visible_named(all.take(i as int)));
            }
        }
        i = i + 1;
    }
    proof {
        assert(all.take(fields@.len() as int) =~= all);
    }
    if shown > 0 {
        out.append(" }");
    }
    out
}

/// Render a tuple shape with its marks applied.
pub fn render_tuple_struct(name: &str, fields: &Vec<TupleField>) -> (r: String)
    ensures
        r@ == spec_render_tuple(name@, fields@.map_values(|f: TupleField| f@)),
{
    let ghost all = fields@.map_values(|f: TupleField| f@);
    let mut out = String::new();
    out.append(name);
    let mut shown: u64 = 0;
    let mut i: usize = 0;
    proof {
        assert(all.take(0) =~= Seq::<TupleFieldView>::empty());
        assert(visible_tuple(all.take(0)) =~= Seq::<Seq<char>>::empty());
        assert(Seq::<char>::empty() + name@ =~= name@);
    }
    while i < fields.len()
        invariant
            i <= fields@.len(),
            all == fields@.map_values(|f: TupleField| f@),
            all.len() == fields@.len(),
            shown <= i,
            shown == visible_tuple(all.take(i as int)).len(),
            ({
                let entries = visible_tuple(all.take(i as int));
                if shown == 0 {
                    out@ == name@
                } else {
                    out@ == name@ + "("@ + comma_join(entries)
                }
            }),
        decreases fields@.len() - i,
    {
        let f = &fields[i];
        proof {
            assert(all.take(i + 1 as int).drop_last() =~= all.take(i as int));
            assert(all.take(i + 1 as int).last() == f@);
        }
        match f.mode {
            FieldMode::Hidden => {},
            _ => {
                if shown == 0 {
                    out.append("(");
                } else {
                    out.append(", ");
                }
                match f.mode {
                    FieldMode::Obfuscated => {
                        out.append("\"<obfuscated>\"");
                    },
                    _ => {
                        out.append(f.value.as_str());
                    },
                }
                shown = shown + 1;
                proof {
                    let prev = visible_tuple(all.take(i as int));
                    let cur = visible_tuple(all.take(i + 1 as int));
                    let entry_text = if f@.mode is Obfuscated {
                        obfuscated_text()
                    } else {
                        f@.value
                    };
                    assert(cur.drop_last() =~= prev);
                    assert(cur.last() == entry_text);
                    if shown == 1 {
                        assert(comma_join(cur) == entry_text);
                        assert(out@ =~= name@ + "("@ + comma_join(cur));
                    } else {
                        assert(comma_join(cur) == comma_join(prev) + ", "@ + entry_text);
                        assert(out@ =~= name@ + "("@ + comma_join(cur));
                    }
                }
            },
        }
        proof {
            if f@.mode is Hidden {
                assert(visible_tuple(all.take(i + 1 as int)) =~= visible_tuple(all.take(i as int)));
            }
        }
        i = i + 1;
    }
    proof {
        assert(all.take(fields@.len() as int) =~= all);
    }
    if shown > 0 {
        out.append(")");
    }
    out
}

} // verus!
