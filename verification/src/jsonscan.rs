use vstd::prelude::*;

use crate::jsontext::{parse_exact, parse_int, parse_json_string, scan_exact, scan_i64,
    scan_json_string};
use crate::strutil::chars_to_string;

verus! {

// ---------------------------------------------------------------------------
// A scanner for JSON objects whose interesting fields are primitive: it
// reads a whole object, capturing each string, integer, boolean or null
// value, and the raw text of each nested object or array. Arbitrary key
// order and unknown keys are accepted; numbers with a fraction or exponent
// are not. Whitespace is removed beforehand by `strip_ws`.
// ---------------------------------------------------------------------------

/// One captured field value.
#[derive(Debug, Clone)]
pub enum JsonField {
    /// A string value.
    JStr(String),
    /// An integer value.
    JInt(i64),
    /// A boolean value.
    JBool(bool),
    /// A null.
    JNull,
    /// The exact text of a nested object or array.
    JRaw(String),
}

/// The mathematical shape of a captured field value.
pub enum FieldView {
    FStr(Seq<char>),
    FInt(int),
    FBool(bool),
    FNull,
    FRaw(Seq<char>),
}

impl View for JsonField {
    type V = FieldView;

    open spec fn view(&self) -> FieldView {
        match self {
            JsonField::JStr(s) => FieldView::FStr(s@),
            JsonField::JInt(v) => FieldView::FInt(*v as int),
            JsonField::JBool(b) => FieldView::FBool(*b),
            JsonField::JNull => FieldView::FNull,
            JsonField::JRaw(s) => FieldView::FRaw(s@),
        }
    }
}

/// The view of a captured field list.
pub open spec fn fields_view(v: Seq<(String, JsonField)>) -> Seq<(Seq<char>, FieldView)> {
    v.map_values(|p: (String, JsonField)| (p.0@, p.1@))
}

/// JSON insignificant whitespace.
pub open spec fn is_json_ws(c: char) -> bool {
    c == ' ' || c == '\t' || c == '\n' || c == '\r'
}

/// The input with whitespace outside string literals removed.
pub open spec fn strip_ws_from(s: Seq<char>, i: int, in_str: bool, esc: bool) -> Seq<char>
    decreases s.len() - i,
{
    if i < 0 || i >= s.len() {
        Seq::empty()
    } else {
        let c = s[i];
        if in_str {
            if esc {
                seq![c] + strip_ws_from(s, i + 1, true, false)
            } else if c == '\\' {
                seq![c] + strip_ws_from(s, i + 1, true, true)
            } else if c == '"' {
                seq![c] + strip_ws_from(s, i + 1, false, false)
            } else {
                seq![c] + strip_ws_from(s, i + 1, true, false)
            }
        } else if is_json_ws(c) {
            strip_ws_from(s, i + 1, false, false)
        } else if c == '"' {
            seq![c] + strip_ws_from(s, i + 1, true, false)
        } else {
            seq![c] + strip_ws_from(s, i + 1, false, false)
        }
    }
}

/// Removes insignificant whitespace, leaving string literals intact.
pub fn strip_json_ws(s: &Vec<char>) -> (r: Vec<char>)
    ensures
        r@ == strip_ws_from(s@, 0, false, false),
{
    let mut out: Vec<char> = Vec::new();
    let mut i: usize = 0;
    let mut in_str = false;
    let mut esc = false;
    while i < s.len()
        invariant
            i <= s@.len(),
            !in_str ==> !esc,
            strip_ws_from(s@, 0, false, false) == out@ + strip_ws_from(
                s@,
                i as int,
                in_str,
                esc,
            ),
            i == s@.len() ==> strip_ws_from(s@, i as int, in_str, esc) =~= Seq::<char>::empty(),
        decreases s@.len() - i,
    {
        let ghost gi = i as int;
        let ghost gin = in_str;
        let ghost gesc = esc;
        let ghost gout = out@;
        let c = s[i];
        let mut pushed = true;
        if in_str {
            if esc {
                esc = false;
            } else if c == '\\' {
                esc = true;
            } else if c == '"' {
                in_str = false;
            }
            out.push(c);
        } else if c == ' ' || c == '\t' || c == '\n' || c == '\r' {
            pushed = false;
        } else {
            if c == '"' {
                in_str = true;
            }
            out.push(c);
        }
        i += 1;
        proof {
            if pushed {
                assert(strip_ws_from(s@, gi, gin, gesc) == seq![s@[gi]] + strip_ws_from(
                    s@,
                    gi + 1,
                    in_str,
                    esc,
                ));
                assert(gout + (seq![s@[gi]] + strip_ws_from(s@, gi + 1, in_str, esc)) =~= out@
                    + strip_ws_from(s@, gi + 1, in_str, esc));
            } else {
                assert(strip_ws_from(s@, gi, gin, gesc) == strip_ws_from(s@, gi + 1, in_str, esc));
            }
        }
    }
    proof {
        assert(out@ + Seq::<char>::empty() =~= out@);
    }
    out
}

/// Skips over a composite value by bracket depth, ignoring brackets inside
/// string literals; returns the index just past the matching closer.
pub open spec fn skip_comp(s: Seq<char>, i: int, depth: int, in_str: bool, esc: bool) -> Option<int>
    decreases s.len() - i,
{
    if i < 0 || i >= s.len() || depth <= 0 {
        None
    } else {
        let c = s[i];
        if in_str {
            if esc {
                skip_comp(s, i + 1, depth, true, false)
            } else if c == '\\' {
                skip_comp(s, i + 1, depth, true, true)
            } else if c == '"' {
                skip_comp(s, i + 1, depth, false, false)
            } else {
                skip_comp(s, i + 1, depth, true, false)
            }
        } else if c == '"' {
            skip_comp(s, i + 1, depth, true, false)
        } else if c == '{' || c == '[' {
            skip_comp(s, i + 1, depth + 1, false, false)
        } else if c == '}' || c == ']' {
            if depth == 1 {
                Some(i + 1)
            } else {
                skip_comp(s, i + 1, depth - 1, false, false)
            }
        } else {
            skip_comp(s, i + 1, depth, false, false)
        }
    }
}

/// Reads a quoted string at `i`; the returned index always advances.
pub open spec fn parse_json_string_at(s: Seq<char>, i: int) -> Option<(Seq<char>, int)> {
    if 0 <= i <= s.len() {
        match parse_json_string(s.skip(i)) {
            Some((c, rest)) => {
                let j = s.len() - rest.len();
                Some((c, if j < i + 1 {
                    i + 1
                } else {
                    j
                }))
            },
            None => None,
        }
    } else {
        None
    }
}

/// Reads one JSON value at `i`: a string, an integer, a boolean, a null,
/// or a whole nested object or array captured as raw text.
pub open spec fn parse_value_at(s: Seq<char>, i: int) -> Option<(FieldView, int)> {
    if 0 <= i < s.len() {
        let c = s[i];
        if c == '"' {
            match parse_json_string_at(s, i) {
                Some((cs, j)) => Some((FieldView::FStr(cs), j)),
                None => None,
            }
        } else if c == '{' || c == '[' {
            match skip_comp(s, i + 1, 1, false, false) {
                Some(j) => Some((FieldView::FRaw(s.subrange(i, j)), j)),
                None => None,
            }
        } else if c == 't' {
            match parse_exact(s.skip(i), "true"@) {
                Some(rest) => Some((FieldView::FBool(true), s.len() - rest.len())),
                None => None,
            }
        } else if c == 'f' {
            match parse_exact(s.skip(i), "false"@) {
                Some(rest) => Some((FieldView::FBool(false), s.len() - rest.len())),
                None => None,
            }
        } else if c == 'n' {
            match parse_exact(s.skip(i), "null"@) {
                Some(rest) => Some((FieldView::FNull, s.len() - rest.len())),
                None => None,
            }
        } else {
            match parse_int(s.skip(i)) {
                Some((v, rest)) => Some((FieldView::FInt(v), s.len() - rest.len())),
                None => None,
            }
        }
    } else {
        None
    }
}

/// Reads the members of an object, from the first key up to and over the
/// closing brace.
pub open spec fn parse_members_at(s: Seq<char>, i: int) -> Option<
    (Seq<(Seq<char>, FieldView)>, int),
>
    decreases s.len() - i,
{
    if i < 0 {
        None
    } else {
        match parse_json_string_at(s, i) {
            None => None,
            Some((key, j1)) => if j1 < s.len() && s[j1] == ':' {
                match parse_value_at(s, j1 + 1) {
                    None => None,
                    Some((v, j2)) => {
                        let j2m = if j2 < j1 + 2 {
                            j1 + 2
                        } else {
                            j2
                        };
                        if j2m < s.len() && s[j2m] == ',' {
                            match parse_members_at(s, j2m + 1) {
                                None => None,
                                Some((ms, j3)) => Some((seq![(key, v)] + ms, j3)),
                            }
                        } else if j2m < s.len() && s[j2m] == '}' {
                            Some((seq![(key, v)], j2m + 1))
                        } else {
                            None
                        }
                    },
                }
            } else {
                None
            },
        }
    }
}

/// Reads a whole object, which must span the entire input.
pub open spec fn parse_flat_object(s: Seq<char>) -> Option<Seq<(Seq<char>, FieldView)>> {
    if s.len() > 0 && s[0] == '{' {
        if s.len() == 2 && s[1] == '}' {
            Some(Seq::empty())
        } else {
            match parse_members_at(s, 1) {
                Some((ms, j)) => if j == s.len() {
                    Some(ms)
                } else {
                    None
                },
                None => None,
            }
        }
    } else {
        None
    }
}

/// Walks over a composite value; `start` stands just past the opener.
#[verifier::loop_isolation(false)]
fn scan_comp(s: &Vec<char>, start: usize) -> (r: Option<usize>)
    requires
        start <= s@.len(),
    ensures
        match r {
            Some(j) => start <= j <= s@.len() && skip_comp(s@, start as int, 1, false, false)
                == Some(j as int),
            None => skip_comp(s@, start as int, 1, false, false) is None,
        },
{
    let mut i: usize = start;
    let mut depth: u128 = 1;
    let mut in_str = false;
    let mut esc = false;
    while i < s.len()
        invariant
            start <= i <= s@.len(),
            1 <= depth,
            depth <= i - start + 1,
            !in_str ==> !esc,
            skip_comp(s@, start as int, 1, false, false) == skip_comp(
                s@,
                i as int,
                depth as int,
                in_str,
                esc,
            ),
        decreases s@.len() - i,
    {
        let c = s[i];
        if in_str {
            if esc {
                esc = false;
            } else if c == '\\' {
                esc = true;
            } else if c == '"' {
                in_str = false;
            }
        } else if c == '"' {
            in_str = true;
        } else if c == '{' || c == '[' {
            depth += 1;
        } else if c == '}' || c == ']' {
            if depth == 1 {
                return Some(i + 1);
            }
            depth -= 1;
        }
        i += 1;
    }
    None
}

/// Reads one JSON value at `start`.
#[verifier::loop_isolation(false)]
fn scan_value(s: &Vec<char>, start: usize) -> (r: Option<(JsonField, usize)>)
    requires
        start <= s@.len(),
    ensures
        match r {
            Some((f, j)) => {
                &&& start < j <= s@.len()
                &&& parse_value_at(s@, start as int) == Some((f@, j as int))
            },
            None => parse_value_at(s@, start as int) is None,
        },
{
    if start >= s.len() {
        return None;
    }
    let c = s[start];
    if c == '"' {
        match scan_json_string(s, start) {
            Some((content, j)) => {
                proof {
                    assert(s@.skip(j as int).len() == s@.len() - j);
                }
                Some((JsonField::JStr(chars_to_string(&content)), j))
            },
            None => None,
        }
    } else if c == '{' || c == '[' {
        match scan_comp(s, start + 1) {
            Some(j) => {
                let mut raw: Vec<char> = Vec::new();
                let mut p: usize = start;
                while p < j
                    invariant
                        start <= p <= j <= s@.len(),
                        raw@ =~= s@.subrange(start as int, p as int),
                    decreases j - p,
                {
                    raw.push(s[p]);
                    p += 1;
                    proof {
                        assert(raw@ =~= s@.subrange(start as int, p as int));
                    }
                }
                Some((JsonField::JRaw(chars_to_string(&raw)), j))
            },
            None => None,
        }
    } else if c == 't' {
        match scan_exact(s, start, "true") {
            Some(j) => {
                proof {
                    assert(s@.skip(j as int).len() == s@.len() - j);
                    reveal_strlit("true");
                }
                Some((JsonField::JBool(true), j))
            },
            None => None,
        }
    } else if c == 'f' {
        match scan_exact(s, start, "false") {
            Some(j) => {
                proof {
                    assert(s@.skip(j as int).len() == s@.len() - j);
                    reveal_strlit("false");
                }
                Some((JsonField::JBool(false), j))
            },
            None => None,
        }
    } else if c == 'n' {
        match scan_exact(s, start, "null") {
            Some(j) => {
                proof {
                    assert(s@.skip(j as int).len() == s@.len() - j);
                    reveal_strlit("null");
                }
                Some((JsonField::JNull, j))
            },
            None => None,
        }
    } else {
        match scan_i64(s, start) {
            Some((v, j)) => {
                proof {
                    assert(s@.skip(j as int).len() == s@.len() - j);
                }
                Some((JsonField::JInt(v), j))
            },
            None => None,
        }
    }
}

/// Reads the elements of an array, from the first element up to and over
/// the closing bracket.
pub open spec fn parse_elems_at(s: Seq<char>, i: int) -> Option<(Seq<FieldView>, int)>
    decreases s.len() - i,
{
    if i < 0 {
        None
    } else {
        match parse_value_at(s, i) {
            None => None,
            Some((v, j)) => {
                let jm = if j < i + 1 {
                    i + 1
                } else {
                    j
                };
                if jm < s.len() && s[jm] == ',' {
                    match parse_elems_at(s, jm + 1) {
                        None => None,
                        Some((es, j2)) => Some((seq![v] + es, j2)),
                    }
                } else if jm < s.len() && s[jm] == ']' {
                    Some((seq![v], jm + 1))
                } else {
                    None
                }
            },
        }
    }
}

/// Reads a whole array, which must span the entire input.
pub open spec fn parse_flat_array(s: Seq<char>) -> Option<Seq<FieldView>> {
    if s.len() > 0 && s[0] == '[' {
        if s.len() == 2 && s[1] == ']' {
            Some(Seq::empty())
        } else {
            match parse_elems_at(s, 1) {
                Some((es, j)) => if j == s.len() {
                    Some(es)
                } else {
                    None
                },
                None => None,
            }
        }
    } else {
        None
    }
}

/// The view of a captured element list.
pub open spec fn elems_view(v: Seq<JsonField>) -> Seq<FieldView> {
    v.map_values(|f: JsonField| f@)
}

/// Reads a whole array spanning the entire buffer, capturing every element.
#[verifier::loop_isolation(false)]
pub fn scan_flat_array(s: &Vec<char>) -> (r: Option<Vec<JsonField>>)
    ensures
        match r {
            Some(v) => parse_flat_array(s@) == Some(elems_view(v@)),
            None => parse_flat_array(s@) is None,
        },
{
    if s.len() == 0 || s[0] != '[' {
        return None;
    }
    if s.len() == 2 && s[1] == ']' {
        let empty: Vec<JsonField> = Vec::new();
        proof {
            assert(elems_view(empty@) =~= Seq::<FieldView>::empty());
        }
        return Some(empty);
    }
    let mut acc: Vec<JsonField> = Vec::new();
    let mut i: usize = 1;
    while i < s.len()
        invariant
            1 <= i <= s@.len(),
            parse_elems_at(s@, 1) == (match parse_elems_at(s@, i as int) {
                Some((es, j)) => Some::<(Seq<FieldView>, int)>((elems_view(acc@) + es, j)),
                None => None::<(Seq<FieldView>, int)>,
            }),
        decreases s@.len() - i,
    {
        let (v, j) = match scan_value(s, i) {
            Some(p) => p,
            None => {
                return None;
            },
        };
        if j < s.len() && s[j] == ',' {
            let ghost before = acc@;
            acc.push(v);
            proof {
                assert(elems_view(acc@) =~= elems_view(before).push(acc@.last()@));
                if parse_elems_at(s@, j + 1) is Some {
                    let tail = parse_elems_at(s@, j + 1).unwrap();
                    assert(elems_view(before) + (seq![acc@.last()@] + tail.0) =~= elems_view(acc@)
                        + tail.0);
                }
            }
            i = j + 1;
        } else if j < s.len() && s[j] == ']' {
            if j + 1 != s.len() {
                proof {
                    assert(parse_flat_array(s@) is None);
                }
                return None;
            }
            let ghost before = acc@;
            acc.push(v);
            proof {
                assert(elems_view(acc@) =~= elems_view(before).push(acc@.last()@));
                assert(elems_view(before) + seq![acc@.last()@] =~= elems_view(acc@));
            }
            return Some(acc);
        } else {
            return None;
        }
    }
    proof {
        assert(parse_value_at(s@, i as int) is None);
    }
    None
}

/// Reads a whole flat object spanning the entire buffer, capturing every
/// member.
#[verifier::loop_isolation(false)]
pub fn scan_flat_object(s: &Vec<char>) -> (r: Option<Vec<(String, JsonField)>>)
    ensures
        match r {
            Some(v) => parse_flat_object(s@) == Some(fields_view(v@)),
            None => parse_flat_object(s@) is None,
        },
{
    if s.len() == 0 || s[0] != '{' {
        return None;
    }
    if s.len() == 2 && s[1] == '}' {
        let empty: Vec<(String, JsonField)> = Vec::new();
        proof {
            assert(fields_view(empty@) =~= Seq::<(Seq<char>, FieldView)>::empty());
        }
        return Some(empty);
    }
    let mut acc: Vec<(String, JsonField)> = Vec::new();
    let mut i: usize = 1;
    while i < s.len()
        invariant
            1 <= i <= s@.len(),
            parse_members_at(s@, 1) == (match parse_members_at(s@, i as int) {
                Some((ms, j)) => Some::<(Seq<(Seq<char>, FieldView)>, int)>(
                    (fields_view(acc@) + ms, j),
                ),
                None => None::<(Seq<(Seq<char>, FieldView)>, int)>,
            }),
        decreases s@.len() - i,
    {
        let (key_chars, j1) = match scan_json_string(s, i) {
            Some(p) => p,
            None => {
                return None;
            },
        };
        proof {
            assert(s@.skip(j1 as int).len() == s@.len() - j1);
        }
        if j1 >= s.len() || s[j1] != ':' {
            return None;
        }
        let (v, j2) = match scan_value(s, j1 + 1) {
            Some(p) => p,
            None => {
                return None;
            },
        };
        let key = chars_to_string(&key_chars);
        if j2 < s.len() && s[j2] == ',' {
            let ghost before = acc@;
            acc.push((key, v));
            proof {
                assert(fields_view(acc@) =~= fields_view(before).push((key_chars@, v@)));
                if parse_members_at(s@, j2 + 1) is Some {
                    let tail = parse_members_at(s@, j2 + 1).unwrap();
                    assert(fields_view(before) + (seq![(key_chars@, v@)] + tail.0) =~= fields_view(
                        acc@,
                    ) + tail.0);
                }
            }
            i = j2 + 1;
        } else if j2 < s.len() && s[j2] == '}' {
            if j2 + 1 != s.len() {
                proof {
                    assert(parse_flat_object(s@) is None);
                }
                return None;
            }
            let ghost before = acc@;
            acc.push((key, v));
            proof {
                assert(fields_view(acc@) =~= fields_view(before).push((key_chars@, v@)));
                assert(fields_view(before) + seq![(key_chars@, v@)] =~= fields_view(acc@));
            }
            return Some(acc);
        } else {
            return None;
        }
    }
    proof {
        assert(parse_json_string_at(s@, i as int) is None);
    }
    None
}

/// The first value bound to a key, where the object holds one.
pub open spec fn lookup_field(ms: Seq<(Seq<char>, FieldView)>, key: Seq<char>) -> Option<FieldView>
    decreases ms.len(),
{
    if ms.len() == 0 {
        None
    } else if ms[0].0 == key {
        Some(ms[0].1)
    } else {
        lookup_field(ms.drop_first(), key)
    }
}

proof fn lemma_lookup_skip(ms: Seq<(Seq<char>, FieldView)>, key: Seq<char>, k: int)
    requires
        0 <= k <= ms.len(),
        forall|q: int| 0 <= q < k ==> (#[trigger] ms[q]).0 != key,
    ensures
        lookup_field(ms, key) == lookup_field(ms.skip(k), key),
    decreases k,
{
    if k > 0 {
        assert(ms[0].0 != key);
        assert(ms.drop_first() =~= ms.skip(1));
        assert forall|q: int| 0 <= q < k - 1 implies (#[trigger] ms.skip(1)[q]).0 != key by {
            assert(ms.skip(1)[q] == ms[q + 1]);
        }
        lemma_lookup_skip(ms.skip(1), key, k - 1);
        assert(ms.skip(1).skip(k - 1) =~= ms.skip(k));
    } else {
        assert(ms.skip(0) =~= ms);
    }
}

/// Finds the first member with the given key.
#[verifier::loop_isolation(false)]
pub fn find_field<'a>(fields: &'a Vec<(String, JsonField)>, key: &str) -> (r: Option<
    &'a JsonField,
>)
    ensures
        match r {
            Some(f) => lookup_field(fields_view(fields@), key@) == Some(f@),
            None => lookup_field(fields_view(fields@), key@) is None,
        },
{
    let ghost ms = fields_view(fields@);
    let mut k: usize = 0;
    while k < fields.len()
        invariant
            k <= fields@.len(),
            ms == fields_view(fields@),
            forall|q: int| 0 <= q < k ==> (#[trigger] ms[q]).0 != key@,
        decreases fields@.len() - k,
    {
        if crate::strutil::str_eq(fields[k].0.as_str(), key) {
            proof {
                lemma_lookup_skip(ms, key@, k as int);
                assert(ms.skip(k as int)[0] == ms[k as int]);
            }
            return Some(&fields[k].1);
        }
        k += 1;
    }
    proof {
        lemma_lookup_skip(ms, key@, k as int);
        assert(ms.skip(k as int).len() == 0);
    }
    None
}

} // verus!
