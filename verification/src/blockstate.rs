use vstd::prelude::*;

use crate::assoc::spec_assoc;
use crate::ids::str_eq;

verus! {

/// A property value of a block state: numbers and booleans are recognized
/// in condition strings, everything else stays text.
#[derive(Debug, Clone, PartialEq, Eq)]
pub enum PropertyValue {
    Number(i64),
    Boolean(bool),
    Text(String),
}

/// Equality of property values, text compared by characters.
pub open spec fn spec_pv_eq(a: PropertyValue, b: PropertyValue) -> bool {
    match (a, b) {
        (PropertyValue::Number(x), PropertyValue::Number(y)) => x == y,
        (PropertyValue::Boolean(x), PropertyValue::Boolean(y)) => x == y,
        (PropertyValue::Text(x), PropertyValue::Text(y)) => x@ == y@,
        _ => false,
    }
}

pub fn pv_eq(a: &PropertyValue, b: &PropertyValue) -> (r: bool)
    ensures
        r == spec_pv_eq(*a, *b),
{
    match (a, b) {
        (PropertyValue::Number(x), PropertyValue::Number(y)) => *x == *y,
        (PropertyValue::Boolean(x), PropertyValue::Boolean(y)) => *x == *y,
        (PropertyValue::Text(x), PropertyValue::Text(y)) => str_eq(x.as_str(), y.as_str()),
        _ => false,
    }
}

/// One declared property of a block, carrying its current value.
#[derive(Debug, Clone, PartialEq, Eq)]
pub struct Property {
    pub value: PropertyValue,
}

impl Property {
    pub fn new(default: PropertyValue) -> (r: Property)
        ensures
            r.value == default,
    {
        Property { value: default }
    }
}

pub open spec fn spec_is_ws(c: char) -> bool {
    c == ' ' || c == '\t' || c == '\n' || c == '\r'
}

fn is_ws(c: char) -> (r: bool)
    ensures
        r == spec_is_ws(c),
{
    c == ' ' || c == '\t' || c == '\n' || c == '\r'
}

pub open spec fn spec_trim_start(s: Seq<char>) -> Seq<char>
    decreases s.len(),
{
    if s.len() > 0 && spec_is_ws(s[0]) {
        spec_trim_start(s.drop_first())
    } else {
        s
    }
}

pub open spec fn spec_trim_end(s: Seq<char>) -> Seq<char>
    decreases s.len(),
{
    if s.len() > 0 && spec_is_ws(s.last()) {
        spec_trim_end(s.drop_last())
    } else {
        s
    }
}

/// The string without leading and trailing ASCII whitespace.
pub open spec fn spec_trim(s: Seq<char>) -> Seq<char> {
    spec_trim_end(spec_trim_start(s))
}

fn trim_start(s: &str) -> (r: String)
    ensures
        r@ == spec_trim_start(s@),
    decreases s@.len(),
{
    let n = s.unicode_len();
    if n > 0 && is_ws(s.get_char(0)) {
        let rest = s.substring_char(1, n);
        proof {
            assert(rest@ == s@.drop_first());
        }
        trim_start(rest)
    } else {
        s.to_owned()
    }
}

fn trim_end(s: &str) -> (r: String)
    ensures
        r@ == spec_trim_end(s@),
    decreases s@.len(),
{
    let n = s.unicode_len();
    if n > 0 && is_ws(s.get_char(n - 1)) {
        let rest = s.substring_char(0, n - 1);
        proof {
            assert(rest@ == s@.drop_last());
        }
        trim_end(rest)
    } else {
        s.to_owned()
    }
}

/// Drops leading and trailing ASCII whitespace.
pub fn trim(s: &str) -> (r: String)
    ensures
        r@ == spec_trim(s@),
{
    let t = trim_start(s);
    trim_end(t.as_str())
}

/// Index of the first occurrence of a character, or -1.
pub open spec fn spec_find(s: Seq<char>, c: char) -> int
    decreases s.len(),
{
    if s.len() == 0 {
        -1
    } else if s[0] == c {
        0
    } else {
        let r = spec_find(s.drop_first(), c);
        if r == -1 {
            -1
        } else {
            r + 1
        }
    }
}

fn find_char(s: &str, c: char) -> (r: Option<usize>)
    ensures
        match r {
            Some(i) => i < s@.len() && i as int == spec_find(s@, c),
            None => spec_find(s@, c) == -1,
        },
    decreases s@.len(),
{
    let n = s.unicode_len();
    if n == 0 {
        None
    } else if s.get_char(0) == c {
        Some(0)
    } else {
        let rest = s.substring_char(1, n);
        proof {
            assert(rest@ == s@.drop_first());
        }
        match find_char(rest, c) {
            Some(i) => Some(i + 1),
            None => None,
        }
    }
}

pub open spec fn spec_is_digit(c: char) -> bool {
    '0' <= c <= '9'
}

pub open spec fn spec_all_digits(s: Seq<char>) -> bool {
    forall|i: int| 0 <= i < s.len() ==> spec_is_digit(#[trigger] s[i])
}

/// The number a digit string denotes.
pub open spec fn spec_digits_value(s: Seq<char>) -> int
    decreases s.len(),
{
    if s.len() == 0 {
        0
    } else {
        spec_digits_value(s.drop_last()) * 10 + (s.last() as int - '0' as int)
    }
}

pub proof fn lemma_digits_value_nonneg(s: Seq<char>)
    requires
        spec_all_digits(s),
    ensures
        spec_digits_value(s) >= 0,
    decreases s.len(),
{
    if s.len() > 0 {
        assert(spec_all_digits(s.drop_last()));
        lemma_digits_value_nonneg(s.drop_last());
    }
}

/// Evaluates a digit string; `None` when some character is no digit or the
/// value does not fit an unsigned 64-bit word.
fn digits_value(s: &str) -> (r: Option<u64>)
    ensures
        match r {
            Some(v) => spec_all_digits(s@) && v as int == spec_digits_value(s@),
            None => !spec_all_digits(s@) || spec_digits_value(s@) > u64::MAX,
        },
    decreases s@.len(),
{
    let n = s.unicode_len();
    if n == 0 {
        return Some(0);
    }
    let head = s.substring_char(0, n - 1);
    proof {
        assert(head@ == s@.drop_last());
    }
    let c = s.get_char(n - 1);
    if !('0' <= c && c <= '9') {
        return None;
    }
    match digits_value(head) {
        None => {
            proof {
                if spec_all_digits(s@) {
                    assert(spec_all_digits(s@.drop_last()));
                    if spec_digits_value(s@.drop_last()) > u64::MAX {
                        lemma_digits_value_nonneg(s@.drop_last());
                        assert(spec_digits_value(s@) > u64::MAX);
                    }
                }
            }
            None
        },
        Some(hv) => {
            let d: u64 = (c as u32 as u64) - 48;
            if hv > (u64::MAX - d) / 10 {
                proof {
                    assert(spec_digits_value(s@) == hv * 10 + d);
                    assert(hv * 10 + d > u64::MAX) by (nonlinear_arith)
                        requires
                            hv > (u64::MAX - d) / 10,
                            d <= 9,
                    ;
                }
                None
            } else {
                proof {
                    assert(hv * 10 + d <= u64::MAX) by (nonlinear_arith)
                        requires
                            hv <= (u64::MAX - d) / 10,
                            d <= 9,
                    ;
                    assert(s@.last() == c);
                    assert forall|i: int| 0 <= i < s@.len() implies spec_is_digit(#[trigger] s@[i]) by {
                        if i < s@.len() - 1 {
                            assert(s@.drop_last()[i] == s@[i]);
                            assert(spec_is_digit(s@.drop_last()[i]));
                        }
                    }
                    assert(d as int == s@.last() as int - '0' as int);
                }
                Some(hv * 10 + d)
            }
        },
    }
}

/// What parsing a signed 64-bit integer from text yields: an optional sign,
/// then at least one digit, the value within range.
pub open spec fn spec_parse_i64(s: Seq<char>) -> Option<int> {
    let (neg, ds) = if s.len() > 0 && (s[0] == '-' || s[0] == '+') {
        (s[0] == '-', s.drop_first())
    } else {
        (false, s)
    };
    if ds.len() == 0 || !spec_all_digits(ds) {
        None
    } else {
        let v = if neg {
            -spec_digits_value(ds)
        } else {
            spec_digits_value(ds)
        };
        if i64::MIN <= v <= i64::MAX {
            Some(v)
        } else {
            None
        }
    }
}

/// Parses a signed 64-bit integer, like the standard parser: an optional
/// sign, then digits only, rejected when out of range.
pub fn parse_i64(s: &str) -> (r: Option<i64>)
    ensures
        match r {
            Some(v) => spec_parse_i64(s@) == Some(v as int),
            None => spec_parse_i64(s@) is None,
        },
{
    let n = s.unicode_len();
    let (neg, ds) = if n > 0 && (s.get_char(0) == '-' || s.get_char(0) == '+') {
        let rest = s.substring_char(1, n);
        proof {
            assert(rest@ == s@.drop_first());
        }
        (s.get_char(0) == '-', rest)
    } else {
        (false, s)
    };
    if ds.unicode_len() == 0 {
        return None;
    }
    match digits_value(ds) {
        None => {
            proof {
                if spec_all_digits(ds@) {
                    lemma_digits_value_nonneg(ds@);
                }
            }
            None
        },
        Some(v) => {
            proof {
                lemma_digits_value_nonneg(ds@);
            }
            if neg {
                if v > 9223372036854775808u64 {
                    None
                } else if v == 9223372036854775808u64 {
                    Some(i64::MIN)
                } else {
                    Some(-(v as i64))
                }
            } else {
                if v > i64::MAX as u64 {
                    None
                } else {
                    Some(v as i64)
                }
            }
        },
    }
}

} // verus!

verus! {

/// Whether this property value is what the given text denotes: a number
/// when it parses as one, a boolean for `true`/`false`, text otherwise.
pub open spec fn spec_value_matches(v: Seq<char>, pv: PropertyValue) -> bool {
    match spec_parse_i64(v) {
        Some(n) => match pv {
            PropertyValue::Number(m) => m == n,
            _ => false,
        },
        None => if v == "true"@ {
            pv == PropertyValue::Boolean(true)
        } else if v == "false"@ {
            pv == PropertyValue::Boolean(false)
        } else {
            match pv {
                PropertyValue::Text(t) => t@ == v,
                _ => false,
            }
        },
    }
}

/// A `key=value` segment is well-formed when its trimmed text carries an
/// equals sign.
pub open spec fn spec_pair_ok(seg: Seq<char>) -> bool {
    spec_find(spec_trim(seg), '=') >= 0
}

/// Whether `(key, pv)` is what a `key=value` segment declares: the key is
/// the trimmed text before the first equals sign, the value the text
/// between the first and second (anything after a second sign is dropped).
pub open spec fn spec_pair_matches(seg: Seq<char>, key: Seq<char>, pv: PropertyValue) -> bool {
    let t = spec_trim(seg);
    let i = spec_find(t, '=');
    &&& i >= 0
    &&& key == spec_trim(t.take(i))
    &&& {
        let after = t.skip(i + 1);
        let j = spec_find(after, '=');
        let v = if j == -1 {
            after
        } else {
            after.take(j)
        };
        spec_value_matches(v, pv)
    }
}

/// Every comma-separated segment is a well-formed `key=value` pair.
pub open spec fn spec_cond_ok(s: Seq<char>) -> bool
    decreases s.len(),
{
    let i = spec_find(s, ',');
    if i < 0 || i >= s.len() {
        spec_pair_ok(s)
    } else {
        spec_pair_ok(s.take(i)) && spec_cond_ok(s.skip(i + 1))
    }
}

/// The parsed pairs correspond one-to-one, in order, to the comma-separated
/// segments.
pub open spec fn spec_cond_pairs_match(s: Seq<char>, pairs: Seq<(String, Property)>) -> bool
    decreases s.len(),
{
    let i = spec_find(s, ',');
    if i < 0 || i >= s.len() {
        pairs.len() == 1 && spec_pair_matches(s, pairs[0].0@, pairs[0].1.value)
    } else {
        pairs.len() >= 1 && spec_pair_matches(s.take(i), pairs[0].0@, pairs[0].1.value)
            && spec_cond_pairs_match(s.skip(i + 1), pairs.drop_first())
    }
}

/// A block-state table entry gave no usable data.
#[derive(Debug, Clone)]
pub enum BlockStatesError {
    UnknownBlock(String),
    NoMatch(String),
    MultipartUnsupported(String),
    BadCondition(String),
    BadRotation(String),
    EmptyVariantList(String),
    OversizedModel(String),
    Model(crate::modeldef::ModelError),
}

impl BlockStatesError {
    /// A short description for logs, naming the offending block or model.
    pub fn describe(&self) -> String {
        match self {
            BlockStatesError::UnknownBlock(name) => {
                let base = String::from_str("no block states registered for block ");
                base.concat(name.as_str())
            },
            BlockStatesError::NoMatch(name) => {
                let base = String::from_str("no variant condition matches block ");
                base.concat(name.as_str())
            },
            BlockStatesError::MultipartUnsupported(name) => {
                let base = String::from_str("multipart resolution is unsupported, needed by block ");
                base.concat(name.as_str())
            },
            BlockStatesError::BadCondition(raw) => {
                let base = String::from_str("variant conditions take the form key=value,key2=value2; got ");
                base.concat(raw.as_str())
            },
            BlockStatesError::BadRotation(model) => {
                let base = String::from_str("variant rotation must be a multiple of 90 degrees in model ");
                base.concat(model.as_str())
            },
            BlockStatesError::EmptyVariantList(name) => {
                let base = String::from_str("a variant lists no models for block ");
                base.concat(name.as_str())
            },
            BlockStatesError::OversizedModel(model) => {
                let base = String::from_str("the merged texture map is too large in model ");
                base.concat(model.as_str())
            },
            BlockStatesError::Model(e) => e.describe(),
        }
    }
}

fn parse_pair(seg: &str) -> (r: Option<(String, Property)>)
    ensures
        (r is Some) == spec_pair_ok(seg@),
        match r {
            Some(p) => spec_pair_matches(seg@, p.0@, p.1.value),
            None => true,
        },
{
    let t = trim(seg);
    let n = t.as_str().unicode_len();
    match find_char(t.as_str(), '=') {
        None => None,
        Some(i) => {
            let key_raw = t.as_str().substring_char(0, i);
            proof {
                assert(key_raw@ == t@.take(i as int));
            }
            let key = trim(key_raw);
            let after = t.as_str().substring_char(i + 1, n);
            proof {
                assert(after@ == t@.skip(i as int + 1));
            }
            let v: String = match find_char(after, '=') {
                None => after.to_owned(),
                Some(j) => {
                    let head = after.substring_char(0, j);
                    proof {
                        assert(head@ == after@.take(j as int));
                    }
                    head.to_owned()
                },
            };
            let pv = match parse_i64(v.as_str()) {
                Some(m) => PropertyValue::Number(m),
                None => {
                    proof {
                        reveal_strlit("true");
                        reveal_strlit("false");
                    }
                    if str_eq(v.as_str(), "true") {
                        PropertyValue::Boolean(true)
                    } else if str_eq(v.as_str(), "false") {
                        PropertyValue::Boolean(false)
                    } else {
                        PropertyValue::Text(v.clone())
                    }
                },
            };
            Some((key, Property { value: pv }))
        },
    }
}

fn parse_pairs(s: &str) -> (r: Option<Vec<(String, Property)>>)
    ensures
        (r is Some) == spec_cond_ok(s@),
        match r {
            Some(pairs) => spec_cond_pairs_match(s@, pairs@),
            None => true,
        },
    decreases s@.len(),
{
    let n = s.unicode_len();
    match find_char(s, ',') {
        None => {
            match parse_pair(s) {
                None => None,
                Some(p) => {
                    let mut out: Vec<(String, Property)> = Vec::new();
                    out.push(p);
                    Some(out)
                },
            }
        },
        Some(i) => {
            let seg = s.substring_char(0, i);
            proof {
                assert(seg@ == s@.take(i as int));
            }
            match parse_pair(seg) {
                None => None,
                Some(p) => {
                    let rest = s.substring_char(i + 1, n);
                    proof {
                        assert(rest@ == s@.skip(i as int + 1));
                    }
                    match parse_pairs(rest) {
                        None => None,
                        Some(mut tail) => {
                            let ghost pre_tail = tail@;
                            tail.insert(0, p);
                            proof {
                                assert(tail@.drop_first() =~= pre_tail);
                            }
                            Some(tail)
                        },
                    }
                },
            }
        },
    }
}

/// One line of a variant table: the raw condition text and the property
/// pairs it declares. The empty (or all-whitespace) condition declares no
/// pairs and matches every block.
#[derive(Debug, Clone)]
pub struct VariantCondition {
    pub raw: String,
    pub properties: Vec<(String, Property)>,
}

impl VariantCondition {
    /// Parses a condition of the form `key=value,key2=value2`, or the empty
    /// condition. Values that read as integers or booleans are typed as
    /// such; every other value is text.
    pub fn parse(s: &str) -> (r: Result<VariantCondition, BlockStatesError>)
        ensures
            spec_trim(s@).len() == 0 ==> (r matches Ok(c) && c.properties.len() == 0),
            spec_trim(s@).len() > 0 ==> (r is Ok) == spec_cond_ok(s@),
            r matches Ok(c) ==> (c.raw@ == s@ && (spec_trim(s@).len() > 0 ==> spec_cond_pairs_match(
                s@,
                c.properties@,
            ))),
    {
        let t = trim(s);
        if t.as_str().unicode_len() == 0 {
            return Ok(VariantCondition { raw: s.to_owned(), properties: Vec::new() });
        }
        match parse_pairs(s) {
            None => Err(BlockStatesError::BadCondition(s.to_owned())),
            Some(pairs) => Ok(VariantCondition { raw: s.to_owned(), properties: pairs }),
        }
    }
}

/// A reference to a model from a variant table, with the rotation to apply
/// and whether texture coordinates stay world-aligned under it.
#[derive(Debug, Clone)]
pub struct Model {
    pub model: String,
    pub x: u16,
    pub y: u16,
    pub uvlock: bool,
}

/// One entry of a variant table: a single model, or equally weighted
/// alternatives of which one is drawn per request.
#[derive(Debug, Clone)]
pub enum Variant {
    One(Model),
    Many(Vec<Model>),
}

/// A multipart condition tree, accepted by the data model but not resolved.
#[derive(Debug)]
pub enum MultipartCondition {
    Or { elements: Vec<MultipartCondition> },
    And { elements: Vec<MultipartCondition> },
    Condition { pairs: Vec<(String, String)> },
}

#[derive(Debug)]
pub struct Multipart {
    pub when: MultipartCondition,
    pub apply: Model,
}

/// A block's state table: a variant table in declaration order, or a
/// multipart list (which resolution reports as unsupported).
#[derive(Debug)]
pub enum BlockStates {
    Variants(Vec<(VariantCondition, Variant)>),
    Multipart(Vec<Multipart>),
}

/// Whether every declared pair of a condition equals the block's
/// corresponding property; a missing key never matches.
pub open spec fn spec_props_match(
    cond: Seq<(String, Property)>,
    props: Seq<(String, Property)>,
) -> bool {
    forall|i: int|
        0 <= i < cond.len() ==> match spec_assoc(props, (#[trigger] cond[i]).0@) {
            Some(p) => spec_pv_eq(p.value, cond[i].1.value),
            None => false,
        }
}

/// Index of the first condition in table order that the block satisfies
/// (the empty condition always does), or -1.
pub open spec fn spec_first_match(
    variants: Seq<(VariantCondition, Variant)>,
    props: Seq<(String, Property)>,
) -> int
    decreases variants.len(),
{
    if variants.len() == 0 {
        -1
    } else if spec_props_match(variants[0].0.properties@, props) {
        0
    } else {
        let r = spec_first_match(variants.drop_first(), props);
        if r == -1 {
            -1
        } else {
            r + 1
        }
    }
}

pub proof fn lemma_first_match_found(
    variants: Seq<(VariantCondition, Variant)>,
    props: Seq<(String, Property)>,
    i: int,
)
    requires
        0 <= i < variants.len(),
        spec_props_match(variants[i].0.properties@, props),
        forall|j: int| 0 <= j < i ==> !spec_props_match((#[trigger] variants[j]).0.properties@, props),
    ensures
        spec_first_match(variants, props) == i,
    decreases i,
{
    if i > 0 {
        lemma_first_match_found(variants.drop_first(), props, i - 1);
    }
}

pub proof fn lemma_first_match_none(
    variants: Seq<(VariantCondition, Variant)>,
    props: Seq<(String, Property)>,
)
    requires
        forall|j: int|
            0 <= j < variants.len() ==> !spec_props_match(
                (#[trigger] variants[j]).0.properties@,
                props,
            ),
    ensures
        spec_first_match(variants, props) == -1,
    decreases variants.len(),
{
    if variants.len() > 0 {
        lemma_first_match_none(variants.drop_first(), props);
    }
}

fn props_match(cond: &Vec<(String, Property)>, props: &Vec<(String, Property)>) -> (r: bool)
    ensures
        r == spec_props_match(cond@, props@),
{
    let mut i: usize = 0;
    while i < cond.len()
        invariant
            i <= cond.len(),
            forall|j: int|
                0 <= j < i ==> match spec_assoc(props@, (#[trigger] cond@[j]).0@) {
                    Some(p) => spec_pv_eq(p.value, cond@[j].1.value),
                    None => false,
                },
        decreases cond.len() - i,
    {
        match crate::assoc::assoc_get(props, cond[i].0.as_str()) {
            Some(p) => {
                if !pv_eq(&p.value, &cond[i].1.value) {
                    return false;
                }
            },
            None => {
                return false;
            },
        }
        i += 1;
    }
    true
}

/// Picks the first matching variant of a block's state table, in table
/// order; conditions after the first match are never consulted.
pub fn find_variant<'a>(
    states: &'a BlockStates,
    props: &Vec<(String, Property)>,
    name: &str,
) -> (r: Result<&'a Variant, BlockStatesError>)
    ensures
        match states {
            BlockStates::Multipart(_) => r matches Err(BlockStatesError::MultipartUnsupported(_)),
            BlockStates::Variants(variants) => {
                let idx = spec_first_match(variants@, props@);
                if idx == -1 {
                    r matches Err(BlockStatesError::NoMatch(_))
                } else {
                    r matches Ok(v) && *v == variants@[idx].1
                }
            },
        },
{
    match states {
        BlockStates::Multipart(_) => Err(BlockStatesError::MultipartUnsupported(name.to_owned())),
        BlockStates::Variants(variants) => {
            let mut i: usize = 0;
            while i < variants.len()
                invariant
                    (match *states {
                        BlockStates::Variants(vs) => vs@ == variants@,
                        _ => false,
                    }),
                    i <= variants.len(),
                    forall|j: int|
                        0 <= j < i ==> !spec_props_match(
                            (#[trigger] variants@[j]).0.properties@,
                            props@,
                        ),
                decreases variants.len() - i,
            {
                if props_match(&variants[i].0.properties, props) {
                    proof {
                        lemma_first_match_found(variants@, props@, i as int);
                    }
                    return Ok(&variants[i].1);
                }
                i += 1;
            }
            proof {
                lemma_first_match_none(variants@, props@);
            }
            Err(BlockStatesError::NoMatch(name.to_owned()))
        },
    }
}

/// Picks the model of a variant: the single one, or the alternative at
/// `pick` modulo the list length, so any draw value lands on one entry.
pub fn select_model<'a>(v: &'a Variant, pick: usize) -> (r: Result<&'a Model, BlockStatesError>)
    ensures
        match v {
            Variant::One(m) => r matches Ok(rm) && *rm == *m,
            Variant::Many(l) => if l.len() == 0 {
                r matches Err(BlockStatesError::EmptyVariantList(_))
            } else {
                r matches Ok(rm) && *rm == l@[(pick as int) % (l@.len() as int)]
            },
        },
{
    match v {
        Variant::One(m) => Ok(m),
        Variant::Many(l) => {
            if l.len() == 0 {
                Err(BlockStatesError::EmptyVariantList(String::new()))
            } else {
                Ok(&l[pick % l.len()])
            }
        },
    }
}

/// Relies on macroquad::rand::gen_range (quad-rand): a draw from its global
/// generator mapped into `0 .. len`; the result is always below `len`.
#[verifier::external_body]
fn random_below(len: usize) -> (r: usize)
    requires
        1 <= len <= 1000000,
    ensures
        r < len,
{
    macroquad::rand::gen_range(0, len)
}

/// Picks the model of a variant with a fresh uniform draw, as rendering
/// does when no reproducible pick is supplied. A list too long for the
/// generator's range falls back to its first entry.
pub fn select_model_random<'a>(v: &'a Variant) -> (r: Result<&'a Model, BlockStatesError>)
    ensures
        match v {
            Variant::One(m) => r matches Ok(rm) && *rm == *m,
            Variant::Many(l) => if l.len() == 0 {
                r matches Err(BlockStatesError::EmptyVariantList(_))
            } else {
                r matches Ok(rm) && exists|i: int| 0 <= i < l@.len() && *rm == #[trigger] l@[i]
            },
        },
{
    match v {
        Variant::One(m) => Ok(m),
        Variant::Many(l) => {
            if l.len() == 0 {
                Err(BlockStatesError::EmptyVariantList(String::new()))
            } else if l.len() <= 1000000 {
                let i = random_below(l.len());
                Ok(&l[i])
            } else {
                Ok(&l[0])
            }
        },
    }
}

} // verus!
