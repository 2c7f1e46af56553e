//! The wire codec: flat objects of string fields, and lists of such
//! objects, written in a JSON-shaped text form.
//!
//! An object `[("id","abc"), ("name","t1")]` is rendered as
//! `{"id":"abc","name":"t1"}`; a list of objects is rendered as
//! `[{...},{...}]`.  Inside a quoted string the characters `"` and `\`
//! are escaped with a backslash; every other character stands for
//! itself.  The renderer is total, and the parser accepts exactly the
//! renderer's output: parsing is proved to be the inverse of rendering.

use vstd::prelude::*;

verus! {

/// Mathematical view of one field of a wire object: its key and value
/// as sequences of characters.
pub struct FieldView {
    pub key: Seq<char>,
    pub value: Seq<char>,
}

/// One key/value field of a wire object.
#[derive(Clone, Debug, PartialEq)]
pub struct JsonField {
    pub key: String,
    pub value: String,
}

impl View for JsonField {
    type V = FieldView;

    open spec fn view(&self) -> FieldView {
        FieldView { key: self.key@, value: self.value@ }
    }
}

/// A flat wire object: an ordered list of key/value fields.
#[derive(Clone, Debug, PartialEq)]
pub struct JsonObject {
    pub fields: Vec<JsonField>,
}

impl View for JsonObject {
    type V = Seq<FieldView>;

    open spec fn view(&self) -> Seq<FieldView> {
        self.fields@.map_values(|f: JsonField| f@)
    }
}

/// How one character is written inside a quoted string: `"` and `\`
/// take a leading backslash, every other character stands for itself.
pub open spec fn escaped_char(c: char) -> Seq<char> {
    if c == '"' || c == '\\' {
        seq!['\\', c]
    } else {
        seq![c]
    }
}

/// The text of a string's characters, escaped, without the quotes.
pub open spec fn encoded_chars(s: Seq<char>) -> Seq<char>
    decreases s.len(),
{
    if s.len() == 0 {
        Seq::empty()
    } else {
        escaped_char(s[0]) + encoded_chars(s.drop_first())
    }
}

/// A quoted string: `"` + escaped characters + `"`.
pub open spec fn encoded_string(s: Seq<char>) -> Seq<char> {
    seq!['"'] + encoded_chars(s) + seq!['"']
}

/// One field: quoted key, `:`, quoted value.
pub open spec fn encoded_field(f: FieldView) -> Seq<char> {
    encoded_string(f.key) + seq![':'] + encoded_string(f.value)
}

/// A comma-separated run of fields, empty for no fields.
pub open spec fn encoded_fields(fs: Seq<FieldView>) -> Seq<char>
    decreases fs.len(),
{
    if fs.len() == 0 {
        Seq::empty()
    } else if fs.len() == 1 {
        encoded_field(fs[0])
    } else {
        encoded_field(fs[0]) + seq![','] + encoded_fields(fs.drop_first())
    }
}

/// A whole object: `{` + fields + `}`.
pub open spec fn encoded_object(fs: Seq<FieldView>) -> Seq<char> {
    seq!['{'] + encoded_fields(fs) + seq!['}']
}

/// A comma-separated run of objects, empty for no objects.
pub open spec fn encoded_objects(os: Seq<Seq<FieldView>>) -> Seq<char>
    decreases os.len(),
{
    if os.len() == 0 {
        Seq::empty()
    } else if os.len() == 1 {
        encoded_object(os[0])
    } else {
        encoded_object(os[0]) + seq![','] + encoded_objects(os.drop_first())
    }
}

/// A whole list of objects: `[` + objects + `]`.
pub open spec fn encoded_array(os: Seq<Seq<FieldView>>) -> Seq<char> {
    seq!['['] + encoded_objects(os) + seq![']']
}

/// Scans the escaped body of a quoted string, the opening quote already
/// consumed.  Returns the decoded characters and how many text
/// characters were read, the closing quote included.
pub open spec fn scan_chars(t: Seq<char>) -> Option<(Seq<char>, int)>
    decreases t.len(),
{
    if t.len() == 0 {
        None
    } else if t[0] == '"' {
        Some((Seq::empty(), 1))
    } else if t[0] == '\\' {
        if t.len() >= 2 && (t[1] == '"' || t[1] == '\\') {
            match scan_chars(t.skip(2)) {
                Some((v, n)) => Some((seq![t[1]] + v, n + 2)),
                None => None,
            }
        } else {
            None
        }
    } else {
        match scan_chars(t.skip(1)) {
            Some((v, n)) => Some((seq![t[0]] + v, n + 1)),
            None => None,
        }
    }
}

/// Scans one quoted string from the front of `t`.
pub open spec fn scan_string(t: Seq<char>) -> Option<(Seq<char>, int)> {
    if t.len() > 0 && t[0] == '"' {
        match scan_chars(t.skip(1)) {
            Some((v, n)) => Some((v, n + 1)),
            None => None,
        }
    } else {
        None
    }
}

/// Scans one field (quoted key, `:`, quoted value) from the front of `t`.
pub open spec fn scan_field(t: Seq<char>) -> Option<(FieldView, int)> {
    match scan_string(t) {
        Some((k, n1)) => if n1 < t.len() && t[n1] == ':' {
            match scan_string(t.skip(n1 + 1)) {
                Some((v, n2)) => Some((FieldView { key: k, value: v }, n1 + 1 + n2)),
                None => None,
            }
        } else {
            None
        },
        None => None,
    }
}

/// Scans a comma-separated run of one or more fields from the front of
/// `t`, stopping before the first character that does not continue the
/// run.
pub open spec fn scan_fields(t: Seq<char>) -> Option<(Seq<FieldView>, int)>
    decreases t.len(),
{
    match scan_field(t) {
        Some((f, n)) => if 1 <= n && n < t.len() && t[n] == ',' {
            match scan_fields(t.skip(n + 1)) {
                Some((fs, m)) => Some((seq![f] + fs, n + 1 + m)),
                None => None,
            }
        } else {
            Some((seq![f], n))
        },
        None => None,
    }
}

/// Scans one whole object from the front of `t`.
pub open spec fn scan_object(t: Seq<char>) -> Option<(Seq<FieldView>, int)> {
    if t.len() >= 2 && t[0] == '{' && t[1] == '}' {
        Some((Seq::empty(), 2))
    } else if t.len() >= 1 && t[0] == '{' {
        match scan_fields(t.skip(1)) {
            Some((fs, n)) => if n + 1 < t.len() && t[n + 1] == '}' {
                Some((fs, n + 2))
            } else {
                None
            },
            None => None,
        }
    } else {
        None
    }
}

/// Scans a comma-separated run of one or more objects from the front of
/// `t`.
pub open spec fn scan_objects(t: Seq<char>) -> Option<(Seq<Seq<FieldView>>, int)>
    decreases t.len(),
{
    match scan_object(t) {
        Some((o, n)) => if 1 <= n && n < t.len() && t[n] == ',' {
            match scan_objects(t.skip(n + 1)) {
                Some((os, m)) => Some((seq![o] + os, n + 1 + m)),
                None => None,
            }
        } else {
            Some((seq![o], n))
        },
        None => None,
    }
}

/// Scans one whole list of objects from the front of `t`.
pub open spec fn scan_array(t: Seq<char>) -> Option<(Seq<Seq<FieldView>>, int)> {
    if t.len() >= 2 && t[0] == '[' && t[1] == ']' {
        Some((Seq::empty(), 2))
    } else if t.len() >= 1 && t[0] == '[' {
        match scan_objects(t.skip(1)) {
            Some((os, n)) => if n + 1 < t.len() && t[n + 1] == ']' {
                Some((os, n + 2))
            } else {
                None
            },
            None => None,
        }
    } else {
        None
    }
}

/// Unfolds the escaped text of a sequence that starts with `c`.
proof fn lemma_encoded_chars_cons(c: char, v: Seq<char>)
    ensures
        encoded_chars(seq![c] + v) == escaped_char(c) + encoded_chars(v),
{
    assert((seq![c] + v)[0] == c);
    assert((seq![c] + v).drop_first() =~= v);
}

/// What a successful character scan found is the escaped text it
/// consumed, closing quote included.
proof fn lemma_scan_chars_sound(t: Seq<char>)
    ensures
        match scan_chars(t) {
            Some((v, n)) => 1 <= n <= t.len() && t.take(n) == encoded_chars(v) + seq!['"'],
            None => true,
        },
    decreases t.len(),
{
    if t.len() == 0 {
    } else if t[0] == '"' {
        assert(t.take(1) =~= seq![t[0]]);
        assert(encoded_chars(Seq::<char>::empty()) + seq!['"'] =~= seq!['"']);
    } else if t[0] == '\\' {
        if t.len() >= 2 && (t[1] == '"' || t[1] == '\\') {
            lemma_scan_chars_sound(t.skip(2));
            match scan_chars(t.skip(2)) {
                Some((v, n)) => {
                    lemma_encoded_chars_cons(t[1], v);
                    assert(escaped_char(t[1]) == seq!['\\', t[1]]);
                    assert(t.take(n + 2) =~= seq!['\\', t[1]] + t.skip(2).take(n));
                    assert(t.take(n + 2) =~= encoded_chars(seq![t[1]] + v) + seq!['"']);
                },
                None => {},
            }
        }
    } else {
        lemma_scan_chars_sound(t.skip(1));
        match scan_chars(t.skip(1)) {
            Some((v, n)) => {
                lemma_encoded_chars_cons(t[0], v);
                assert(escaped_char(t[0]) == seq![t[0]]);
                assert(t.take(n + 1) =~= seq![t[0]] + t.skip(1).take(n));
                assert(t.take(n + 1) =~= encoded_chars(seq![t[0]] + v) + seq!['"']);
            },
            None => {},
        }
    }
}

/// Scanning recovers exactly the characters whose escaped text, with
/// its closing quote, stands at the front of the input.
proof fn lemma_scan_chars_complete(v: Seq<char>, rest: Seq<char>)
    ensures
        scan_chars(encoded_chars(v) + seq!['"'] + rest) == Some::<(Seq<char>, int)>(
            (v, encoded_chars(v).len() + 1int),
        ),
    decreases v.len(),
{
    let t = encoded_chars(v) + seq!['"'] + rest;
    if v.len() == 0 {
        assert(encoded_chars(v) == Seq::<char>::empty());
        assert(t[0] == '"');
        assert(scan_chars(t) == Some::<(Seq<char>, int)>((Seq::empty(), 1)));
        assert(Seq::<char>::empty() =~= v);
    } else {
        let c = v[0];
        let v2 = v.drop_first();
        assert(encoded_chars(v) == escaped_char(c) + encoded_chars(v2));
        lemma_scan_chars_complete(v2, rest);
        if c == '"' || c == '\\' {
            assert(escaped_char(c) == seq!['\\', c]);
            assert(t[0] == '\\');
            assert(t[1] == c);
            assert(t.skip(2) =~= encoded_chars(v2) + seq!['"'] + rest);
            assert(seq![t[1]] + v2 =~= v);
        } else {
            assert(escaped_char(c) == seq![c]);
            assert(t[0] == c);
            assert(t.skip(1) =~= encoded_chars(v2) + seq!['"'] + rest);
            assert(seq![t[0]] + v2 =~= v);
        }
    }
}

/// What a successful string scan found is the quoted text it consumed.
proof fn lemma_scan_string_sound(t: Seq<char>)
    ensures
        match scan_string(t) {
            Some((v, n)) => 2 <= n <= t.len() && t.take(n) == encoded_string(v),
            None => true,
        },
{
    if t.len() > 0 && t[0] == '"' {
        lemma_scan_chars_sound(t.skip(1));
        match scan_chars(t.skip(1)) {
            Some((v, n)) => {
                assert(t.take(n + 1) =~= seq![t[0]] + t.skip(1).take(n));
                assert(t.take(n + 1) =~= seq!['"'] + encoded_chars(v) + seq!['"']);
            },
            None => {},
        }
    }
}

/// Scanning recovers exactly the string whose quoted text stands at the
/// front of the input.
proof fn lemma_scan_string_complete(v: Seq<char>, rest: Seq<char>)
    ensures
        scan_string(encoded_string(v) + rest) == Some::<(Seq<char>, int)>(
            (v, encoded_string(v).len() as int),
        ),
{
    let t = encoded_string(v) + rest;
    assert(t[0] == '"');
    assert(t.skip(1) =~= encoded_chars(v) + seq!['"'] + rest);
    lemma_scan_chars_complete(v, rest);
}

/// What a successful field scan found is the field text it consumed.
proof fn lemma_scan_field_sound(t: Seq<char>)
    ensures
        match scan_field(t) {
            Some((f, n)) => 5 <= n <= t.len() && t.take(n) == encoded_field(f),
            None => true,
        },
{
    lemma_scan_string_sound(t);
    match scan_string(t) {
        Some((k, n1)) => {
            if n1 < t.len() && t[n1] == ':' {
                lemma_scan_string_sound(t.skip(n1 + 1));
                match scan_string(t.skip(n1 + 1)) {
                    Some((v, n2)) => {
                        assert(t.take(n1 + 1 + n2) =~= t.take(n1) + seq![t[n1]] + t.skip(
                            n1 + 1,
                        ).take(n2));
                        assert(t.take(n1 + 1 + n2) =~= encoded_string(k) + seq![':']
                            + encoded_string(v));
                    },
                    None => {},
                }
            }
        },
        None => {},
    }
}

/// Scanning recovers exactly the field whose text stands at the front
/// of the input.
proof fn lemma_scan_field_complete(f: FieldView, rest: Seq<char>)
    ensures
        scan_field(encoded_field(f) + rest) == Some::<(FieldView, int)>(
            (f, encoded_field(f).len() as int),
        ),
{
    let t = encoded_field(f) + rest;
    let rest1 = seq![':'] + encoded_string(f.value) + rest;
    assert(t =~= encoded_string(f.key) + rest1);
    lemma_scan_string_complete(f.key, rest1);
    let n1 = encoded_string(f.key).len() as int;
    assert(t[n1] == ':');
    assert(t.skip(n1 + 1) =~= encoded_string(f.value) + rest);
    lemma_scan_string_complete(f.value, rest);
}

/// What a successful fields scan found is the comma-joined text it
/// consumed, and at least one field.
proof fn lemma_scan_fields_sound(t: Seq<char>)
    ensures
        match scan_fields(t) {
            Some((fs, n)) => fs.len() >= 1 && 5 <= n <= t.len() && t.take(n) == encoded_fields(fs),
            None => true,
        },
    decreases t.len(),
{
    lemma_scan_field_sound(t);
    match scan_field(t) {
        Some((f, n)) => {
            if 1 <= n && n < t.len() && t[n] == ',' {
                lemma_scan_fields_sound(t.skip(n + 1));
                match scan_fields(t.skip(n + 1)) {
                    Some((fs, m)) => {
                        assert(t.take(n + 1 + m) =~= t.take(n) + seq![t[n]] + t.skip(n + 1).take(
                            m,
                        ));
                        let whole = seq![f] + fs;
                        assert(whole[0] == f);
                        assert(whole.drop_first() =~= fs);
                        assert(whole.len() >= 2);
                        assert(encoded_fields(whole) == encoded_field(f) + seq![',']
                            + encoded_fields(fs));
                        assert(t.take(n + 1 + m) =~= encoded_field(f) + seq![','] + encoded_fields(
                            fs,
                        ));
                    },
                    None => {},
                }
            } else {
                assert(seq![f].len() == 1);
                assert(encoded_fields(seq![f]) == encoded_field(seq![f][0]));
            }
        },
        None => {},
    }
}

/// Scanning recovers exactly the run of fields whose comma-joined text
/// stands at the front of the input, provided what follows does not
/// continue the run with another comma.
proof fn lemma_scan_fields_complete(fs: Seq<FieldView>, rest: Seq<char>)
    requires
        fs.len() >= 1,
        rest.len() == 0 || rest[0] != ',',
    ensures
        scan_fields(encoded_fields(fs) + rest) == Some::<(Seq<FieldView>, int)>(
            (fs, encoded_fields(fs).len() as int),
        ),
    decreases fs.len(),
{
    let t = encoded_fields(fs) + rest;
    if fs.len() == 1 {
        assert(encoded_fields(fs) == encoded_field(fs[0]));
        lemma_scan_field_complete(fs[0], rest);
        let n1 = encoded_field(fs[0]).len() as int;
        assert(scan_field(t) == Some::<(FieldView, int)>((fs[0], n1)));
        if n1 < t.len() {
            assert(t[n1] == rest[0]);
        }
        assert(seq![fs[0]] =~= fs);
    } else {
        let f = fs[0];
        let fs2 = fs.drop_first();
        assert(encoded_fields(fs) == encoded_field(f) + seq![','] + encoded_fields(fs2));
        let rest1 = seq![','] + encoded_fields(fs2) + rest;
        assert(t =~= encoded_field(f) + rest1);
        lemma_scan_field_complete(f, rest1);
        let n1 = encoded_field(f).len() as int;
        assert(t[n1] == ',');
        assert(n1 >= 5) by {
            assert(encoded_field(f).len() == encoded_string(f.key).len() + 1 + encoded_string(
                f.value,
            ).len());
        }
        assert(t.skip(n1 + 1) =~= encoded_fields(fs2) + rest);
        lemma_scan_fields_complete(fs2, rest);
        assert(seq![f] + fs2 =~= fs);
    }
}

/// The first character of a nonempty run of fields is a quote.
proof fn lemma_encoded_fields_first(fs: Seq<FieldView>)
    requires
        fs.len() >= 1,
    ensures
        encoded_fields(fs).len() >= 5,
        encoded_fields(fs)[0] == '"',
{
    assert(encoded_field(fs[0])[0] == '"');
    if fs.len() == 1 {
        assert(encoded_fields(fs) == encoded_field(fs[0]));
    } else {
        assert(encoded_fields(fs) == encoded_field(fs[0]) + seq![','] + encoded_fields(
            fs.drop_first(),
        ));
    }
}

/// What a successful object scan found is the object text it consumed.
proof fn lemma_scan_object_sound(t: Seq<char>)
    ensures
        match scan_object(t) {
            Some((fs, n)) => 2 <= n <= t.len() && t.take(n) == encoded_object(fs),
            None => true,
        },
{
    if t.len() >= 2 && t[0] == '{' && t[1] == '}' {
        assert(encoded_fields(Seq::<FieldView>::empty()) == Seq::<char>::empty());
        assert(t.take(2) =~= seq![t[0], t[1]]);
        assert(t.take(2) =~= encoded_object(Seq::<FieldView>::empty()));
    } else if t.len() >= 1 && t[0] == '{' {
        lemma_scan_fields_sound(t.skip(1));
        match scan_fields(t.skip(1)) {
            Some((fs, n)) => {
                if n + 1 < t.len() && t[n + 1] == '}' {
                    assert(t.take(n + 2) =~= seq![t[0]] + t.skip(1).take(n) + seq![t[n + 1]]);
                    assert(t.take(n + 2) =~= seq!['{'] + encoded_fields(fs) + seq!['}']);
                }
            },
            None => {},
        }
    }
}

/// Scanning recovers exactly the object whose text stands at the front
/// of the input.
proof fn lemma_scan_object_complete(fs: Seq<FieldView>, rest: Seq<char>)
    ensures
        scan_object(encoded_object(fs) + rest) == Some::<(Seq<FieldView>, int)>(
            (fs, encoded_object(fs).len() as int),
        ),
{
    let t = encoded_object(fs) + rest;
    assert(t[0] == '{');
    if fs.len() == 0 {
        assert(encoded_fields(fs) == Seq::<char>::empty());
        assert(t[1] == '}');
        assert(Seq::<FieldView>::empty() =~= fs);
    } else {
        lemma_encoded_fields_first(fs);
        assert(t[1] == encoded_fields(fs)[0]);
        assert(t[1] != '}');
        let rest1 = seq!['}'] + rest;
        assert(t.skip(1) =~= encoded_fields(fs) + rest1);
        lemma_scan_fields_complete(fs, rest1);
        let n = encoded_fields(fs).len() as int;
        assert(t[n + 1] == '}');
    }
}

/// The first character of a nonempty run of objects is a brace.
proof fn lemma_encoded_objects_first(os: Seq<Seq<FieldView>>)
    requires
        os.len() >= 1,
    ensures
        encoded_objects(os).len() >= 2,
        encoded_objects(os)[0] == '{',
{
    assert(encoded_object(os[0])[0] == '{');
    if os.len() == 1 {
        assert(encoded_objects(os) == encoded_object(os[0]));
    } else {
        assert(encoded_objects(os) == encoded_object(os[0]) + seq![','] + encoded_objects(
            os.drop_first(),
        ));
    }
}

/// What a successful objects scan found is the comma-joined text it
/// consumed, and at least one object.
proof fn lemma_scan_objects_sound(t: Seq<char>)
    ensures
        match scan_objects(t) {
            Some((os, n)) => os.len() >= 1 && 2 <= n <= t.len() && t.take(n) == encoded_objects(
                os,
            ),
            None => true,
        },
    decreases t.len(),
{
    lemma_scan_object_sound(t);
    match scan_object(t) {
        Some((o, n)) => {
            if 1 <= n && n < t.len() && t[n] == ',' {
                lemma_scan_objects_sound(t.skip(n + 1));
                match scan_objects(t.skip(n + 1)) {
                    Some((os, m)) => {
                        assert(t.take(n + 1 + m) =~= t.take(n) + seq![t[n]] + t.skip(n + 1).take(
                            m,
                        ));
                        let whole = seq![o] + os;
                        assert(whole[0] == o);
                        assert(whole.drop_first() =~= os);
                        assert(whole.len() >= 2);
                        assert(encoded_objects(whole) == encoded_object(o) + seq![',']
                            + encoded_objects(os));
                        assert(t.take(n + 1 + m) =~= encoded_object(o) + seq![',']
                            + encoded_objects(os));
                    },
                    None => {},
                }
            } else {
                assert(seq![o].len() == 1);
                assert(encoded_objects(seq![o]) == encoded_object(seq![o][0]));
            }
        },
        None => {},
    }
}

/// Scanning recovers exactly the run of objects whose comma-joined text
/// stands at the front of the input, provided what follows does not
/// continue the run with another comma.
#[verifier::rlimit(50)]
proof fn lemma_scan_objects_complete(os: Seq<Seq<FieldView>>, rest: Seq<char>)
    requires
        os.len() >= 1,
        rest.len() == 0 || rest[0] != ',',
    ensures
        scan_objects(encoded_objects(os) + rest) == Some::<(Seq<Seq<FieldView>>, int)>(
            (os, encoded_objects(os).len() as int),
        ),
    decreases os.len(),
{
    let t = encoded_objects(os) + rest;
    if os.len() == 1 {
        assert(encoded_objects(os) == encoded_object(os[0]));
        lemma_scan_object_complete(os[0], rest);
        let n1 = encoded_object(os[0]).len() as int;
        assert(scan_object(t) == Some::<(Seq<FieldView>, int)>((os[0], n1)));
        if n1 < t.len() {
            assert(t[n1] == rest[0]);
        }
        assert(seq![os[0]] =~= os);
    } else {
        let o = os[0];
        let os2 = os.drop_first();
        assert(encoded_objects(os) == encoded_object(o) + seq![','] + encoded_objects(os2));
        let rest1 = seq![','] + encoded_objects(os2) + rest;
        assert(t =~= encoded_object(o) + rest1);
        lemma_scan_object_complete(o, rest1);
        let n1 = encoded_object(o).len() as int;
        assert(t[n1] == ',');
        assert(t.skip(n1 + 1) =~= encoded_objects(os2) + rest);
        lemma_scan_objects_complete(os2, rest);
        assert(seq![o] + os2 =~= os);
    }
}

/// What a successful array scan found is the array text it consumed.
proof fn lemma_scan_array_sound(t: Seq<char>)
    ensures
        match scan_array(t) {
            Some((os, n)) => 2 <= n <= t.len() && t.take(n) == encoded_array(os),
            None => true,
        },
{
    if t.len() >= 2 && t[0] == '[' && t[1] == ']' {
        assert(encoded_objects(Seq::<Seq<FieldView>>::empty()) == Seq::<char>::empty());
        assert(t.take(2) =~= seq![t[0], t[1]]);
        assert(t.take(2) =~= encoded_array(Seq::<Seq<FieldView>>::empty()));
    } else if t.len() >= 1 && t[0] == '[' {
        lemma_scan_objects_sound(t.skip(1));
        match scan_objects(t.skip(1)) {
            Some((os, n)) => {
                if n + 1 < t.len() && t[n + 1] == ']' {
                    assert(t.take(n + 2) =~= seq![t[0]] + t.skip(1).take(n) + seq![t[n + 1]]);
                    assert(t.take(n + 2) =~= seq!['['] + encoded_objects(os) + seq![']']);
                }
            },
            None => {},
        }
    }
}

/// Scanning recovers exactly the list whose text stands at the front of
/// the input.
proof fn lemma_scan_array_complete(os: Seq<Seq<FieldView>>, rest: Seq<char>)
    ensures
        scan_array(encoded_array(os) + rest) == Some::<(Seq<Seq<FieldView>>, int)>(
            (os, encoded_array(os).len() as int),
        ),
{
    let t = encoded_array(os) + rest;
    assert(t[0] == '[');
    if os.len() == 0 {
        assert(encoded_objects(os) == Seq::<char>::empty());
        assert(t[1] == ']');
        assert(Seq::<Seq<FieldView>>::empty() =~= os);
    } else {
        lemma_encoded_objects_first(os);
        assert(t[1] == encoded_objects(os)[0]);
        assert(t[1] != ']');
        let rest1 = seq![']'] + rest;
        assert(t.skip(1) =~= encoded_objects(os) + rest1);
        lemma_scan_objects_complete(os, rest1);
        let n = encoded_objects(os).len() as int;
        assert(t[n + 1] == ']');
    }
}

/// Relies on `String::push`: appends the given character to the end of
/// the string.
#[verifier::external_body]
pub(crate) fn push_char(s: &mut String, c: char)
    ensures
        final(s)@ == old(s)@ + seq![c],
{
    s.push(c);
}

/// Appends the escaped form of `s`'s characters to `out`.
fn render_chars_into(out: &mut String, s: &str)
    ensures
        final(out)@ == old(out)@ + encoded_chars(s@),
{
    let n: usize = s.unicode_len();
    let mut i: usize = 0;
    while i < n
        invariant
            n == s@.len(),
            i <= n,
            out@ == old(out)@ + encoded_chars(s@.take(i as int)),
        decreases n - i,
    {
        let c = s.get_char(i);
        if c == '"' || c == '\\' {
            push_char(out, '\\');
            push_char(out, c);
        } else {
            push_char(out, c);
        }
        proof {
            lemma_encoded_chars_snoc(s@, i as int);
            assert(out@ == old(out)@ + encoded_chars(s@.take(i + 1))) by {
                assert(old(out)@ + encoded_chars(s@.take(i as int)) + escaped_char(s@[i as int])
                    =~= old(out)@ + (encoded_chars(s@.take(i as int)) + escaped_char(s@[i as int])));
            }
        }
        i = i + 1;
    }
    proof {
        assert(s@.take(n as int) =~= s@);
    }
}

/// One escaped-text step: encoding one more character appends its
/// escaped form.
proof fn lemma_encoded_chars_snoc(s: Seq<char>, i: int)
    requires
        0 <= i < s.len(),
    ensures
        encoded_chars(s.take(i + 1)) == encoded_chars(s.take(i)) + escaped_char(s[i]),
    decreases i,
{
    if i == 0 {
        assert(s.take(0) =~= Seq::<char>::empty());
        assert(encoded_chars(s.take(0)) == Seq::<char>::empty());
        assert(s.take(1).drop_first() =~= Seq::<char>::empty());
        assert(encoded_chars(s.take(1).drop_first()) == Seq::<char>::empty());
        assert(encoded_chars(s.take(1)) == escaped_char(s.take(1)[0]) + encoded_chars(
            s.take(1).drop_first(),
        ));
        assert(encoded_chars(s.take(1)) =~= encoded_chars(s.take(0)) + escaped_char(s[0]));
    } else {
        let t = s.drop_first();
        lemma_encoded_chars_snoc(t, i - 1);
        assert(s.take(i + 1).drop_first() =~= t.take(i));
        assert(s.take(i).drop_first() =~= t.take(i - 1));
        assert(encoded_chars(s.take(i + 1)) == escaped_char(s[0]) + encoded_chars(t.take(i)));
        assert(encoded_chars(s.take(i)) == escaped_char(s[0]) + encoded_chars(t.take(i - 1)));
        assert(escaped_char(s[0]) + (encoded_chars(t.take(i - 1)) + escaped_char(t[i - 1]))
            =~= (escaped_char(s[0]) + encoded_chars(t.take(i - 1))) + escaped_char(t[i - 1]));
    }
}

/// Appends the quoted, escaped form of `s` to `out`.
fn render_string_into(out: &mut String, s: &str)
    ensures
        final(out)@ == old(out)@ + encoded_string(s@),
{
    push_char(out, '"');
    render_chars_into(out, s);
    push_char(out, '"');
    proof {
        assert(old(out)@ + seq!['"'] + encoded_chars(s@) + seq!['"']
            =~= old(out)@ + (seq!['"'] + encoded_chars(s@) + seq!['"']));
    }
}

/// One fields-join step: encoding one more field appends a comma (after
/// the first field) and the field's text.
proof fn lemma_encoded_fields_snoc(fs: Seq<FieldView>, i: int)
    requires
        0 <= i < fs.len(),
    ensures
        encoded_fields(fs.take(i + 1)) == if i == 0 {
            encoded_field(fs[0])
        } else {
            encoded_fields(fs.take(i)) + seq![','] + encoded_field(fs[i])
        },
    decreases i,
{
    if i == 0 {
        assert(fs.take(1).len() == 1);
        assert(encoded_fields(fs.take(1)) == encoded_field(fs.take(1)[0]));
    } else {
        let t = fs.drop_first();
        lemma_encoded_fields_snoc(t, i - 1);
        assert(fs.take(i + 1).drop_first() =~= t.take(i));
        assert(fs.take(i + 1).len() == i + 1 >= 2);
        assert(encoded_fields(fs.take(i + 1)) == encoded_field(fs[0]) + seq![',']
            + encoded_fields(t.take(i)));
        if i == 1 {
            assert(fs.take(1).len() == 1);
            assert(encoded_fields(fs.take(1)) == encoded_field(fs[0]));
            assert(encoded_fields(t.take(1)) == encoded_field(t[0]));
            assert(encoded_field(fs[0]) + seq![','] + encoded_field(t[0]) =~= encoded_fields(
                fs.take(1),
            ) + seq![','] + encoded_field(fs[1]));
        } else {
            assert(fs.take(i).drop_first() =~= t.take(i - 1));
            assert(fs.take(i).len() == i >= 2);
            assert(encoded_fields(fs.take(i)) == encoded_field(fs[0]) + seq![',']
                + encoded_fields(t.take(i - 1)));
            assert(encoded_field(fs[0]) + seq![','] + (encoded_fields(t.take(i - 1)) + seq![',']
                + encoded_field(t[i - 1])) =~= (encoded_field(fs[0]) + seq![','] + encoded_fields(
                t.take(i - 1),
            )) + seq![','] + encoded_field(fs[i]));
        }
    }
}

/// One objects-join step, like `lemma_encoded_fields_snoc` for lists.
proof fn lemma_encoded_objects_snoc(os: Seq<Seq<FieldView>>, i: int)
    requires
        0 <= i < os.len(),
    ensures
        encoded_objects(os.take(i + 1)) == if i == 0 {
            encoded_object(os[0])
        } else {
            encoded_objects(os.take(i)) + seq![','] + encoded_object(os[i])
        },
    decreases i,
{
    if i == 0 {
        assert(os.take(1).len() == 1);
        assert(encoded_objects(os.take(1)) == encoded_object(os.take(1)[0]));
    } else {
        let t = os.drop_first();
        lemma_encoded_objects_snoc(t, i - 1);
        assert(os.take(i + 1).drop_first() =~= t.take(i));
        assert(os.take(i + 1).len() == i + 1 >= 2);
        assert(encoded_objects(os.take(i + 1)) == encoded_object(os[0]) + seq![',']
            + encoded_objects(t.take(i)));
        if i == 1 {
            assert(os.take(1).len() == 1);
            assert(encoded_objects(os.take(1)) == encoded_object(os[0]));
            assert(encoded_objects(t.take(1)) == encoded_object(t[0]));
            assert(encoded_object(os[0]) + seq![','] + encoded_object(t[0]) =~= encoded_objects(
                os.take(1),
            ) + seq![','] + encoded_object(os[1]));
        } else {
            assert(os.take(i).drop_first() =~= t.take(i - 1));
            assert(os.take(i).len() == i >= 2);
            assert(encoded_objects(os.take(i)) == encoded_object(os[0]) + seq![',']
                + encoded_objects(t.take(i - 1)));
            assert(encoded_object(os[0]) + seq![','] + (encoded_objects(t.take(i - 1)) + seq![',']
                + encoded_object(t[i - 1])) =~= (encoded_object(os[0]) + seq![',']
                + encoded_objects(t.take(i - 1))) + seq![','] + encoded_object(os[i]));
        }
    }
}

/// Appends one rendered field (quoted key, `:`, quoted value) to `out`.
fn render_field_into(out: &mut String, f: &JsonField)
    ensures
        final(out)@ == old(out)@ + encoded_field(f@),
{
    render_string_into(out, f.key.as_str());
    push_char(out, ':');
    render_string_into(out, f.value.as_str());
    proof {
        assert(old(out)@ + encoded_string(f.key@) + seq![':'] + encoded_string(f.value@)
            =~= old(out)@ + (encoded_string(f.key@) + seq![':'] + encoded_string(f.value@)));
    }
}

/// Collects the characters of `s` into a vector.
fn str_to_chars(s: &str) -> (v: Vec<char>)
    ensures
        v@ == s@,
{
    let n: usize = s.unicode_len();
    let mut v: Vec<char> = Vec::new();
    let mut i: usize = 0;
    while i < n
        invariant
            n == s@.len(),
            i <= n,
            v@ == s@.take(i as int),
        decreases n - i,
    {
        let c = s.get_char(i);
        v.push(c);
        proof {
            assert(s@.take(i + 1) =~= s@.take(i as int).push(s@[i as int]));
        }
        i = i + 1;
    }
    proof {
        assert(s@.take(n as int) =~= s@);
    }
    v
}

/// Reads one quoted string starting at index `i`, returning the decoded
/// string and the index just past the closing quote.
fn parse_quoted(cs: &Vec<char>, i: usize) -> (r: Option<(String, usize)>)
    requires
        i <= cs.len(),
    ensures
        match r {
            Some(p) => i < p.1 <= cs.len() && scan_string(cs@.skip(i as int)) == Some::<
                (Seq<char>, int),
            >((p.0@, p.1 - i)),
            None => scan_string(cs@.skip(i as int)) is None,
        },
{
    if i == cs.len() || cs[i] != '"' {
        return None;
    }
    let mut acc = String::new();
    let mut k: usize = i + 1;
    loop
        invariant
            i + 1 <= k <= cs.len(),
            i < cs.len(),
            cs@[i as int] == '"',
            match scan_chars(cs@.skip(k as int)) {
                Some(p) => scan_chars(cs@.skip(i + 1)) == Some::<(Seq<char>, int)>(
                    (acc@ + p.0, p.1 + (k - i - 1)),
                ),
                None => scan_chars(cs@.skip(i + 1)) is None,
            },
        decreases cs.len() - k,
    {
        if k == cs.len() {
            proof {
                assert(cs@.skip(k as int).len() == 0);
                assert(cs@.skip(i as int).skip(1) =~= cs@.skip(i + 1));
            }
            return None;
        }
        let c = cs[k];
        if c == '"' {
            proof {
                assert(cs@.skip(k as int)[0] == '"');
                assert(scan_chars(cs@.skip(k as int)) == Some::<(Seq<char>, int)>(
                    (Seq::empty(), 1),
                ));
                assert(acc@ + Seq::<char>::empty() =~= acc@);
                assert(cs@.skip(i as int)[0] == '"');
                assert(cs@.skip(i as int).skip(1) =~= cs@.skip(i + 1));
            }
            return Some((acc, k + 1));
        } else if c == '\\' {
            if k + 1 == cs.len() {
                proof {
                    assert(cs@.skip(k as int).len() == 1);
                    assert(cs@.skip(k as int)[0] == '\\');
                    assert(cs@.skip(i as int).skip(1) =~= cs@.skip(i + 1));
                }
                return None;
            }
            let d = cs[k + 1];
            if d == '"' || d == '\\' {
                proof {
                    let t = cs@.skip(k as int);
                    assert(t[0] == '\\');
                    assert(t[1] == d);
                    assert(t.skip(2) =~= cs@.skip(k + 2));
                    match scan_chars(cs@.skip(k + 2)) {
                        Some(p) => {
                            assert(scan_chars(t) == Some::<(Seq<char>, int)>(
                                (seq![d] + p.0, p.1 + 2),
                            ));
                            assert(acc@ + (seq![d] + p.0) =~= (acc@ + seq![d]) + p.0);
                        },
                        None => {},
                    }
                }
                push_char(&mut acc, d);
                k = k + 2;
            } else {
                proof {
                    let t = cs@.skip(k as int);
                    assert(t[0] == '\\');
                    if t.len() >= 2 {
                        assert(t[1] == d);
                    }
                    assert(scan_chars(t) is None);
                    assert(cs@.skip(i as int).skip(1) =~= cs@.skip(i + 1));
                }
                return None;
            }
        } else {
            proof {
                let t = cs@.skip(k as int);
                assert(t[0] == c);
                assert(t.skip(1) =~= cs@.skip(k + 1));
                match scan_chars(cs@.skip(k + 1)) {
                    Some(p) => {
                        assert(scan_chars(t) == Some::<(Seq<char>, int)>((seq![c] + p.0, p.1 + 1)));
                        assert(acc@ + (seq![c] + p.0) =~= (acc@ + seq![c]) + p.0);
                    },
                    None => {},
                }
            }
            push_char(&mut acc, c);
            k = k + 1;
        }
    }
}

/// Reads one field (quoted key, `:`, quoted value) starting at index
/// `i`.
fn parse_field_at(cs: &Vec<char>, i: usize) -> (r: Option<(JsonField, usize)>)
    requires
        i <= cs.len(),
    ensures
        match r {
            Some(p) => i < p.1 <= cs.len() && scan_field(cs@.skip(i as int)) == Some::<
                (FieldView, int),
            >((p.0@, p.1 - i)),
            None => scan_field(cs@.skip(i as int)) is None,
        },
{
    match parse_quoted(cs, i) {
        None => None,
        Some((key, j1)) => {
            if j1 == cs.len() || cs[j1] != ':' {
                None
            } else {
                match parse_quoted(cs, j1 + 1) {
                    None => {
                        proof {
                            assert(cs@.skip(i as int).skip((j1 - i) + 1) =~= cs@.skip(j1 + 1));
                        }
                        None
                    },
                    Some((value, j2)) => {
                        proof {
                            assert(cs@.skip(i as int).skip((j1 - i) + 1) =~= cs@.skip(j1 + 1));
                        }
                        Some((JsonField { key, value }, j2))
                    },
                }
            }
        },
    }
}

/// Reads a comma-separated run of fields starting at index `i`.
fn parse_fields_at(cs: &Vec<char>, i: usize) -> (r: Option<(Vec<JsonField>, usize)>)
    requires
        i <= cs.len(),
    ensures
        match r {
            Some(p) => i < p.1 <= cs.len() && scan_fields(cs@.skip(i as int)) == Some::<
                (Seq<FieldView>, int),
            >((p.0@.map_values(|f: JsonField| f@), p.1 - i)),
            None => scan_fields(cs@.skip(i as int)) is None,
        },
{
    let mut acc: Vec<JsonField> = Vec::new();
    let mut k: usize = i;
    loop
        invariant
            i <= k <= cs.len(),
            match scan_fields(cs@.skip(k as int)) {
                Some(p) => scan_fields(cs@.skip(i as int)) == Some::<(Seq<FieldView>, int)>(
                    (acc@.map_values(|f: JsonField| f@) + p.0, p.1 + (k - i)),
                ),
                None => scan_fields(cs@.skip(i as int)) is None,
            },
            k == i ==> acc@.len() == 0,
            k > i ==> acc@.len() > 0,
        decreases cs.len() - k,
    {
        match parse_field_at(cs, k) {
            None => {
                return None;
            },
            Some((f, j)) => {
                if j != cs.len() && cs[j] == ',' {
                    proof {
                        let t = cs@.skip(k as int);
                        assert(t[(j - k) as int] == cs@[j as int]);
                        assert(t.skip((j - k) + 1) =~= cs@.skip(j + 1));
                        match scan_fields(cs@.skip(j + 1)) {
                            Some(p) => {
                                assert(scan_fields(t) == Some::<(Seq<FieldView>, int)>(
                                    (seq![f@] + p.0, (j - k) + 1 + p.1),
                                ));
                                assert(acc@.map_values(|g: JsonField| g@) + (seq![f@] + p.0)
                                    =~= acc@.push(f).map_values(|g: JsonField| g@) + p.0);
                            },
                            None => {},
                        }
                    }
                    acc.push(f);
                    k = j + 1;
                } else {
                    proof {
                        let t = cs@.skip(k as int);
                        if j < cs.len() {
                            assert(t[(j - k) as int] == cs@[j as int]);
                        }
                        assert(scan_fields(t) == Some::<(Seq<FieldView>, int)>(
                            (seq![f@], j - k),
                        ));
                        assert(acc@.map_values(|g: JsonField| g@) + seq![f@] =~= acc@.push(
                            f,
                        ).map_values(|g: JsonField| g@));
                    }
                    acc.push(f);
                    return Some((acc, j));
                }
            },
        }
    }
}

/// Reads one whole object starting at index `i`.
fn parse_object_at(cs: &Vec<char>, i: usize) -> (r: Option<(JsonObject, usize)>)
    requires
        i <= cs.len(),
    ensures
        match r {
            Some(p) => i < p.1 <= cs.len() && scan_object(cs@.skip(i as int)) == Some::<
                (Seq<FieldView>, int),
            >((p.0@, p.1 - i)),
            None => scan_object(cs@.skip(i as int)) is None,
        },
{
    if i == cs.len() || cs[i] != '{' {
        return None;
    }
    if i + 1 < cs.len() && cs[i + 1] == '}' {
        let o = JsonObject { fields: Vec::new() };
        proof {
            assert(o@ =~= Seq::<FieldView>::empty());
        }
        return Some((o, i + 2));
    }
    proof {
        assert(cs@.skip(i as int).skip(1) =~= cs@.skip(i + 1));
    }
    match parse_fields_at(cs, i + 1) {
        None => None,
        Some((fields, j)) => {
            if j != cs.len() && cs[j] == '}' {
                let o = JsonObject { fields };
                Some((o, j + 1))
            } else {
                None
            }
        },
    }
}

/// Reads a comma-separated run of objects starting at index `i`.
fn parse_objects_at(cs: &Vec<char>, i: usize) -> (r: Option<(Vec<JsonObject>, usize)>)
    requires
        i <= cs.len(),
    ensures
        match r {
            Some(p) => i < p.1 <= cs.len() && scan_objects(cs@.skip(i as int)) == Some::<
                (Seq<Seq<FieldView>>, int),
            >((p.0@.map_values(|o: JsonObject| o@), p.1 - i)),
            None => scan_objects(cs@.skip(i as int)) is None,
        },
{
    let mut acc: Vec<JsonObject> = Vec::new();
    let mut k: usize = i;
    loop
        invariant
            i <= k <= cs.len(),
            match scan_objects(cs@.skip(k as int)) {
                Some(p) => scan_objects(cs@.skip(i as int)) == Some::<(Seq<Seq<FieldView>>, int)>(
                    (acc@.map_values(|o: JsonObject| o@) + p.0, p.1 + (k - i)),
                ),
                None => scan_objects(cs@.skip(i as int)) is None,
            },
        decreases cs.len() - k,
    {
        match parse_object_at(cs, k) {
            None => {
                return None;
            },
            Some((o, j)) => {
                if j != cs.len() && cs[j] == ',' {
                    proof {
                        let t = cs@.skip(k as int);
                        assert(t[(j - k) as int] == cs@[j as int]);
                        assert(t.skip((j - k) + 1) =~= cs@.skip(j + 1));
                        match scan_objects(cs@.skip(j + 1)) {
                            Some(p) => {
                                assert(scan_objects(t) == Some::<(Seq<Seq<FieldView>>, int)>(
                                    (seq![o@] + p.0, (j - k) + 1 + p.1),
                                ));
                                assert(acc@.map_values(|q: JsonObject| q@) + (seq![o@] + p.0)
                                    =~= acc@.push(o).map_values(|q: JsonObject| q@) + p.0);
                            },
                            None => {},
                        }
                    }
                    acc.push(o);
                    k = j + 1;
                } else {
                    proof {
                        let t = cs@.skip(k as int);
                        if j < cs.len() {
                            assert(t[(j - k) as int] == cs@[j as int]);
                        }
                        assert(scan_objects(t) == Some::<(Seq<Seq<FieldView>>, int)>(
                            (seq![o@], j - k),
                        ));
                        assert(acc@.map_values(|q: JsonObject| q@) + seq![o@] =~= acc@.push(
                            o,
                        ).map_values(|q: JsonObject| q@));
                    }
                    acc.push(o);
                    return Some((acc, j));
                }
            },
        }
    }
}

/// Reads one whole list of objects starting at index `i`.
fn parse_array_at(cs: &Vec<char>, i: usize) -> (r: Option<(Vec<JsonObject>, usize)>)
    requires
        i <= cs.len(),
    ensures
        match r {
            Some(p) => i < p.1 <= cs.len() && scan_array(cs@.skip(i as int)) == Some::<
                (Seq<Seq<FieldView>>, int),
            >((p.0@.map_values(|o: JsonObject| o@), p.1 - i)),
            None => scan_array(cs@.skip(i as int)) is None,
        },
{
    if i == cs.len() || cs[i] != '[' {
        return None;
    }
    if i + 1 < cs.len() && cs[i + 1] == ']' {
        let os: Vec<JsonObject> = Vec::new();
        proof {
            assert(os@.map_values(|o: JsonObject| o@) =~= Seq::<Seq<FieldView>>::empty());
        }
        return Some((os, i + 2));
    }
    proof {
        assert(cs@.skip(i as int).skip(1) =~= cs@.skip(i + 1));
    }
    match parse_objects_at(cs, i + 1) {
        None => None,
        Some((os, j)) => {
            if j != cs.len() && cs[j] == ']' {
                Some((os, j + 1))
            } else {
                None
            }
        },
    }
}

/// Parses a whole text as one object.  Succeeds exactly on the texts
/// the renderer produces, and returns the one object that renders to
/// the input.
pub fn parse_object_text(s: &str) -> (r: Option<JsonObject>)
    ensures
        match r {
            Some(o) => s@ == encoded_object(o@),
            None => forall|fs: Seq<FieldView>| s@ != encoded_object(fs),
        },
{
    let cs = str_to_chars(s);
    proof {
        assert(cs@.skip(0) =~= cs@);
    }
    match parse_object_at(&cs, 0) {
        Some((o, j)) => {
            if j == cs.len() {
                proof {
                    lemma_scan_object_sound(cs@);
                    assert(cs@.take(j as int) =~= cs@);
                }
                Some(o)
            } else {
                proof {
                    assert forall|fs: Seq<FieldView>| s@ != encoded_object(fs) by {
                        if s@ == encoded_object(fs) {
                            lemma_scan_object_complete(fs, Seq::empty());
                            assert(encoded_object(fs) + Seq::<char>::empty() =~= encoded_object(
                                fs,
                            ));
                        }
                    }
                }
                None
            }
        },
        None => {
            proof {
                assert forall|fs: Seq<FieldView>| s@ != encoded_object(fs) by {
                    if s@ == encoded_object(fs) {
                        lemma_scan_object_complete(fs, Seq::empty());
                        assert(encoded_object(fs) + Seq::<char>::empty() =~= encoded_object(fs));
                    }
                }
            }
            None
        },
    }
}

/// Parses a whole text as one list of objects.  Succeeds exactly on the
/// texts the renderer produces, and returns the one list that renders
/// to the input.
pub fn parse_array_text(s: &str) -> (r: Option<Vec<JsonObject>>)
    ensures
        match r {
            Some(os) => s@ == encoded_array(os@.map_values(|o: JsonObject| o@)),
            None => forall|osv: Seq<Seq<FieldView>>| s@ != encoded_array(osv),
        },
{
    let cs = str_to_chars(s);
    proof {
        assert(cs@.skip(0) =~= cs@);
    }
    match parse_array_at(&cs, 0) {
        Some((os, j)) => {
            if j == cs.len() {
                proof {
                    lemma_scan_array_sound(cs@);
                    assert(cs@.take(j as int) =~= cs@);
                }
                Some(os)
            } else {
                proof {
                    assert forall|osv: Seq<Seq<FieldView>>| s@ != encoded_array(osv) by {
                        if s@ == encoded_array(osv) {
                            lemma_scan_array_complete(osv, Seq::empty());
                            assert(encoded_array(osv) + Seq::<char>::empty() =~= encoded_array(
                                osv,
                            ));
                        }
                    }
                }
                None
            }
        },
        None => {
            proof {
                assert forall|osv: Seq<Seq<FieldView>>| s@ != encoded_array(osv) by {
                    if s@ == encoded_array(osv) {
                        lemma_scan_array_complete(osv, Seq::empty());
                        assert(encoded_array(osv) + Seq::<char>::empty() =~= encoded_array(osv));
                    }
                }
            }
            None
        },
    }
}

/// Law: the codec round-trips.  Any object's rendered text scans back
/// to exactly that object, the whole text consumed.
pub proof fn lemma_object_round_trip(fs: Seq<FieldView>)
    ensures
        scan_object(encoded_object(fs)) == Some::<(Seq<FieldView>, int)>(
            (fs, encoded_object(fs).len() as int),
        ),
{
    lemma_scan_object_complete(fs, Seq::empty());
    assert(encoded_object(fs) + Seq::<char>::empty() =~= encoded_object(fs));
}

/// A whole text that scans as one object, nothing left over, is that
/// object's rendered text.
pub proof fn lemma_scan_object_exact(text: Seq<char>, fs: Seq<FieldView>, n: int)
    requires
        scan_object(text) == Some::<(Seq<FieldView>, int)>((fs, n)),
        n == text.len(),
    ensures
        text == encoded_object(fs),
{
    lemma_scan_object_sound(text);
    assert(text.take(n) =~= text);
}

/// A whole text that scans as one list, nothing left over, is that
/// list's rendered text.
pub proof fn lemma_scan_array_exact(text: Seq<char>, os: Seq<Seq<FieldView>>, n: int)
    requires
        scan_array(text) == Some::<(Seq<Seq<FieldView>>, int)>((os, n)),
        n == text.len(),
    ensures
        text == encoded_array(os),
{
    lemma_scan_array_sound(text);
    assert(text.take(n) =~= text);
}

/// Law: the codec round-trips for lists.  Any list's rendered text
/// scans back to exactly that list, the whole text consumed.
pub proof fn lemma_array_round_trip(os: Seq<Seq<FieldView>>)
    ensures
        scan_array(encoded_array(os)) == Some::<(Seq<Seq<FieldView>>, int)>(
            (os, encoded_array(os).len() as int),
        ),
{
    lemma_scan_array_complete(os, Seq::empty());
    assert(encoded_array(os) + Seq::<char>::empty() =~= encoded_array(os));
}

/// Renders a whole object as text.  Rendering is total: every object
/// has a text form.
pub fn render_object(o: &JsonObject) -> (r: String)
    ensures
        r@ == encoded_object(o@),
{
    let mut out = String::new();
    push_char(&mut out, '{');
    let n: usize = o.fields.len();
    let mut i: usize = 0;
    while i < n
        invariant
            n == o.fields.len(),
            i <= n,
            out@ == seq!['{'] + encoded_fields(o@.take(i as int)),
        decreases n - i,
    {
        if i > 0 {
            push_char(&mut out, ',');
        }
        render_field_into(&mut out, &o.fields[i]);
        proof {
            lemma_encoded_fields_snoc(o@, i as int);
            assert(o@[i as int] == o.fields[i as int]@);
            if i == 0 {
                assert(o@.take(0) =~= Seq::<FieldView>::empty());
                assert(encoded_fields(o@.take(0)) == Seq::<char>::empty());
                assert(out@ =~= seq!['{'] + encoded_fields(o@.take(i + 1)));
            } else {
                assert(out@ =~= seq!['{'] + encoded_fields(o@.take(i + 1)));
            }
        }
        i = i + 1;
    }
    push_char(&mut out, '}');
    proof {
        assert(o@.take(n as int) =~= o@);
        assert(out@ =~= seq!['{'] + encoded_fields(o@) + seq!['}']);
    }
    out
}

/// Renders a list of objects as text.  Rendering is total.
pub fn render_array(objects: &Vec<JsonObject>) -> (r: String)
    ensures
        r@ == encoded_array(objects@.map_values(|o: JsonObject| o@)),
{
    let ghost model = objects@.map_values(|o: JsonObject| o@);
    let mut out = String::new();
    push_char(&mut out, '[');
    let n: usize = objects.len();
    let mut i: usize = 0;
    while i < n
        invariant
            n == objects.len(),
            model == objects@.map_values(|o: JsonObject| o@),
            i <= n,
            out@ == seq!['['] + encoded_objects(model.take(i as int)),
        decreases n - i,
    {
        if i > 0 {
            push_char(&mut out, ',');
        }
        let piece = render_object(&objects[i]);
        out.append(piece.as_str());
        proof {
            lemma_encoded_objects_snoc(model, i as int);
            assert(model[i as int] == objects[i as int]@);
            if i == 0 {
                assert(model.take(0) =~= Seq::<Seq<FieldView>>::empty());
                assert(encoded_objects(model.take(0)) == Seq::<char>::empty());
                assert(out@ =~= seq!['['] + encoded_objects(model.take(i + 1)));
            } else {
                assert(out@ =~= seq!['['] + encoded_objects(model.take(i + 1)));
            }
        }
        i = i + 1;
    }
    push_char(&mut out, ']');
    proof {
        assert(model.take(n as int) =~= model);
        assert(out@ =~= seq!['['] + encoded_objects(model) + seq![']']);
    }
    out
}

} // verus!
