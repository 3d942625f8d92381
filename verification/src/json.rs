//! JSON values, as the parameters of a rule are written in.

use crate::error::{ParamError, ParamErrorView};
use crate::text::{integer_text, integer_to_string, joined, natural_to_string, quote, quoted,
    same_text};
use vstd::prelude::*;
use vstd::std_specs::cmp::PartialEqSpec;

verus! {

/// A JSON value. A number is told apart by how it can be held: a whole number
/// that is not negative, a negative one, or any other number, which is kept as its
/// text. The order of an object's fields does not matter, and where a name stands
/// twice its first field counts.
#[derive(Debug)]
pub enum Json {
    Null,
    Bool(bool),
    Unsigned(u64),
    Negative(i64),
    Fraction(String),
    Text(String),
    Array(Vec<Json>),
    Object(Vec<(String, Json)>),
}

/// The model of `Json`.
pub enum JsonView {
    Null,
    Bool(bool),
    Unsigned(u64),
    Negative(i64),
    Fraction(Seq<char>),
    Text(Seq<char>),
    Array(Seq<JsonView>),
    Object(Map<Seq<char>, JsonView>),
}

/// The place of the first field with the name, or the number of fields where there
/// is none.
pub open spec fn first_with(fields: Seq<(String, Json)>, name: Seq<char>) -> nat
    decreases fields.len(),
{
    if fields.len() == 0 || fields.first().0@ == name {
        0
    } else {
        1 + first_with(fields.drop_first(), name)
    }
}

impl Json {
    /// The value with its texts and items as sequences and its fields as a map.
    pub open spec fn model(self) -> JsonView
        decreases self,
    {
        match self {
            Json::Null => JsonView::Null,
            Json::Bool(b) => JsonView::Bool(b),
            Json::Unsigned(n) => JsonView::Unsigned(n),
            Json::Negative(n) => JsonView::Negative(n),
            Json::Fraction(s) => JsonView::Fraction(s@),
            Json::Text(s) => JsonView::Text(s@),
            Json::Array(items) => JsonView::Array(
                Seq::new(
                    items@.len(),
                    |i: int|
                        if 0 <= i < items@.len() {
                            items@[i].model()
                        } else {
                            arbitrary()
                        },
                ),
            ),
            Json::Object(fields) => JsonView::Object(
                Map::new(
                    |name: Seq<char>| first_with(fields@, name) < fields@.len(),
                    |name: Seq<char>|
                        if first_with(fields@, name) < fields@.len() {
                            fields@[first_with(fields@, name) as int].1.model()
                        } else {
                            arbitrary()
                        },
                ),
            ),
        }
    }
}

impl View for Json {
    type V = JsonView;

    open spec fn view(&self) -> JsonView {
        self.model()
    }
}

impl Json {
    /// The same value again.
    fn copy(&self) -> (r: Json)
        ensures
            r@ == self@,
        decreases self,
    {
        match self {
            Json::Null => Json::Null,
            Json::Bool(b) => Json::Bool(*b),
            Json::Unsigned(n) => Json::Unsigned(*n),
            Json::Negative(n) => Json::Negative(*n),
            Json::Fraction(s) => Json::Fraction(s.clone()),
            Json::Text(s) => Json::Text(s.clone()),
            Json::Array(items) => {
                let mut copies: Vec<Json> = Vec::new();
                let mut i: usize = 0;
                while i < items.len()
                    invariant
                        i <= items.len(),
                        copies@.len() == i,
                        self matches Json::Array(v) && v == items,
                        forall|j: int| 0 <= j < i ==> (#[trigger] copies@[j])@ == items@[j]@,
                    decreases items.len() - i,
                {
                    copies.push(items[i].copy());
                    i += 1;
                }
                proof {
                    lemma_array(copies);
                    lemma_array(*items);
                }
                assert(Json::Array(copies)@->Array_0 =~= self@->Array_0);
                Json::Array(copies)
            },
            Json::Object(fields) => {
                let mut copies: Vec<(String, Json)> = Vec::new();
                let mut i: usize = 0;
                while i < fields.len()
                    invariant
                        i <= fields.len(),
                        copies@.len() == i,
                        self matches Json::Object(v) && v == fields,
                        forall|j: int|
                            0 <= j < i ==> (#[trigger] copies@[j]).0@ == fields@[j].0@
                                && copies@[j].1@ == fields@[j].1@,
                    decreases fields.len() - i,
                {
                    copies.push((fields[i].0.clone(), fields[i].1.copy()));
                    i += 1;
                }
                proof {
                    lemma_object(copies);
                    lemma_object(*fields);
                }
                assert(object_model(copies@) =~= object_model(fields@)) by {
                    assert forall|name: Seq<char>| #[trigger]
                        first_with(copies@, name) == first_with(fields@, name) by {
                        lemma_first_with(copies@, name);
                        lemma_first_with(fields@, name);
                        let i = first_with(copies@, name) as int;
                        let j = first_with(fields@, name) as int;
                        assert(i < copies@.len() ==> copies@[i].0@ == fields@[i].0@);
                        assert(j < copies@.len() ==> copies@[j].0@ == fields@[j].0@);
                    }
                }
                Json::Object(copies)
            },
        }
    }
}

impl Clone for Json {
    fn clone(&self) -> (r: Self)
        ensures
            r@ == self@,
    {
        self.copy()
    }
}

/// Whether the text is how zero is written as a number that is not whole.
pub open spec fn is_zero(text: Seq<char>) -> bool {
    text == "0.0"@ || text == "-0.0"@
}

impl JsonView {
    /// Whether the values are the same: numbers by their value, arrays item by item,
    /// and objects by what stands under each name.
    pub open spec fn same(self, other: JsonView) -> bool
        decreases self,
    {
        match (self, other) {
            (JsonView::Fraction(a), JsonView::Fraction(b)) => a == b || (is_zero(a) && is_zero(b)),
            (JsonView::Array(a), JsonView::Array(b)) => {
                &&& a.len() == b.len()
                &&& forall|i: int| 0 <= i < a.len() ==> (#[trigger] a[i]).same(b[i])
            },
            (JsonView::Object(a), JsonView::Object(b)) => {
                &&& a.dom() == b.dom()
                &&& forall|name: Seq<char>|
                    a.contains_key(name) ==> (#[trigger] a[name]).same(b[name])
            },
            _ => self == other,
        }
    }
}

/// Whether the text is how zero is written as a number that is not whole.
fn writes_zero(text: &str) -> (r: bool)
    ensures
        r == is_zero(text@),
{
    same_text(text, "0.0") || same_text(text, "-0.0")
}

impl Json {
    /// Whether the values are the same.
    fn equals(&self, other: &Json) -> (r: bool)
        ensures
            r == self@.same(other@),
        decreases self,
    {
        match (self, other) {
            (Json::Null, Json::Null) => true,
            (Json::Bool(a), Json::Bool(b)) => *a == *b,
            (Json::Unsigned(a), Json::Unsigned(b)) => *a == *b,
            (Json::Negative(a), Json::Negative(b)) => *a == *b,
            (Json::Fraction(a), Json::Fraction(b)) => {
                same_text(a.as_str(), b.as_str()) || (writes_zero(a.as_str()) && writes_zero(
                    b.as_str(),
                ))
            },
            (Json::Text(a), Json::Text(b)) => same_text(a.as_str(), b.as_str()),
            (Json::Array(a), Json::Array(b)) => {
                proof {
                    lemma_array(*a);
                    lemma_array(*b);
                }
                let ghost left = self@->Array_0;
                let ghost right = other@->Array_0;
                if a.len() != b.len() {
                    return false;
                }
                let mut i: usize = 0;
                while i < a.len()
                    invariant
                        i <= a.len(),
                        a.len() == b.len(),
                        self matches Json::Array(v) && v == a,
                        self@ == JsonView::Array(left),
                        other@ == JsonView::Array(right),
                        left == a@.map_values(|v: Json| v@),
                        right == b@.map_values(|v: Json| v@),
                        forall|j: int| 0 <= j < i ==> (#[trigger] left[j]).same(right[j]),
                    decreases a.len() - i,
                {
                    if !a[i].equals(&b[i]) {
                        assert(!left[i as int].same(right[i as int]));
                        return false;
                    }
                    i += 1;
                }
                true
            },
            (Json::Object(a), Json::Object(b)) => {
                proof {
                    lemma_object(*a);
                    lemma_object(*b);
                }
                let ghost left = object_model(a@);
                let ghost right = object_model(b@);
                let mut i: usize = 0;
                while i < a.len()
                    invariant
                        i <= a.len(),
                        self matches Json::Object(v) && v == a,
                        self@ == JsonView::Object(left),
                        other@ == JsonView::Object(right),
                        left == object_model(a@),
                        right == object_model(b@),
                        forall|k: int|
                            0 <= k < i ==> right.contains_key((#[trigger] a@[k]).0@)
                                && left[a@[k].0@].same(right[a@[k].0@]),
                    decreases a.len() - i,
                {
                    let name = a[i].0.as_str();
                    proof {
                        lemma_first_with(a@, name@);
                        lemma_first_with(b@, name@);
                    }
                    assert(left.contains_key(name@));
                    let j: usize = find_place(b, name);
                    if j == b.len() {
                        assert(!right.contains_key(name@));
                        return false;
                    }
                    let k: usize = find_place(a, name);
                    if !a[k].1.equals(&b[j].1) {
                        assert(!left[name@].same(right[name@]));
                        return false;
                    }
                    i += 1;
                }
                let mut i: usize = 0;
                while i < b.len()
                    invariant
                        i <= b.len(),
                        self@ == JsonView::Object(left),
                        other@ == JsonView::Object(right),
                        left == object_model(a@),
                        right == object_model(b@),
                        forall|k: int| 0 <= k < i ==> left.contains_key((#[trigger] b@[k]).0@),
                    decreases b.len() - i,
                {
                    let name = b[i].0.as_str();
                    proof {
                        lemma_first_with(b@, name@);
                    }
                    let j: usize = find_place(a, name);
                    if j == a.len() {
                        assert(right.contains_key(name@) && !left.contains_key(name@));
                        return false;
                    }
                    i += 1;
                }
                proof {
                    assert forall|name: Seq<char>| left.contains_key(name) implies (
                    #[trigger] left[name]).same(right[name]) by {
                        lemma_first_with(a@, name);
                        assert(a@[first_with(a@, name) as int].0@ == name);
                    }
                    assert forall|name: Seq<char>| #[trigger]
                        left.dom().contains(name) == right.dom().contains(name) by {
                        lemma_first_with(a@, name);
                        lemma_first_with(b@, name);
                        if left.contains_key(name) {
                            assert(right.contains_key(a@[first_with(a@, name) as int].0@));
                        }
                        if right.contains_key(name) {
                            assert(left.contains_key(b@[first_with(b@, name) as int].0@));
                        }
                    }
                    assert(left.dom() =~= right.dom());
                }
                true
            },
            _ => false,
        }
    }
}

impl PartialEq for Json {
    fn eq(&self, other: &Json) -> (r: bool) {
        self.equals(other)
    }
}

impl vstd::std_specs::cmp::PartialEqSpecImpl for Json {
    open spec fn obeys_eq_spec() -> bool {
        true
    }

    open spec fn eq_spec(&self, other: &Json) -> bool {
        self@.same(other@)
    }
}

impl Eq for Json {

}

impl JsonView {
    /// How a value is told of where it was not expected.
    pub open spec fn description(self) -> Seq<char> {
        match self {
            JsonView::Null => "null"@,
            JsonView::Bool(true) => "boolean `true`"@,
            JsonView::Bool(false) => "boolean `false`"@,
            JsonView::Unsigned(n) => "integer `"@ + integer_text(n as int) + "`"@,
            JsonView::Negative(n) => "integer `"@ + integer_text(n as int) + "`"@,
            JsonView::Fraction(text) => "floating point `"@ + text + "`"@,
            JsonView::Text(text) => "string "@ + quoted(text),
            JsonView::Array(_) => "sequence"@,
            JsonView::Object(_) => "map"@,
        }
    }

    /// The complaint that the value is of another type than expected.
    pub open spec fn mistyped(self, expected: Seq<char>) -> ParamErrorView {
        ParamErrorView::InvalidType { found: self.description(), expected }
    }

    /// The value as a signed 64-bit integer.
    pub open spec fn integer(self) -> Result<i64, ParamErrorView> {
        match self {
            JsonView::Unsigned(n) => if n <= i64::MAX {
                Ok(n as i64)
            } else {
                Err(ParamErrorView::InvalidValue { found: self.description(), expected: "i64"@ })
            },
            JsonView::Negative(n) => Ok(n),
            _ => Err(self.mistyped("i64"@)),
        }
    }

    /// The value as a list of texts.
    pub open spec fn text_list(self) -> Result<Seq<Seq<char>>, ParamErrorView> {
        match self {
            JsonView::Array(items) => texts_of(items),
            _ => Err(self.mistyped("a sequence"@)),
        }
    }
}

/// The texts that the values are, or the complaint about the first that is none.
pub open spec fn texts_of(items: Seq<JsonView>) -> Result<Seq<Seq<char>>, ParamErrorView>
    decreases items.len(),
{
    if items.len() == 0 {
        Ok(Seq::empty())
    } else {
        match texts_of(items.drop_last()) {
            Err(e) => Err(e),
            Ok(texts) => match items.last() {
                JsonView::Text(text) => Ok(texts.push(text)),
                other => Err(other.mistyped("a string"@)),
            },
        }
    }
}

impl Json {
    /// How the value is told of where it was not expected.
    pub fn describe(&self) -> (r: String)
        ensures
            r@ == self@.description(),
    {
        match self {
            Json::Null => "null".to_owned(),
            Json::Bool(b) => if *b {
                "boolean `true`".to_owned()
            } else {
                "boolean `false`".to_owned()
            },
            Json::Unsigned(n) => {
                let digits = natural_to_string(*n);
                let prefix = joined("integer `", digits.as_str());
                joined(prefix.as_str(), "`")
            },
            Json::Negative(n) => {
                let digits = integer_to_string(*n);
                let prefix = joined("integer `", digits.as_str());
                joined(prefix.as_str(), "`")
            },
            Json::Fraction(text) => {
                let prefix = joined("floating point `", text.as_str());
                joined(prefix.as_str(), "`")
            },
            Json::Text(text) => joined("string ", quote(text.as_str()).as_str()),
            Json::Array(_) => "sequence".to_owned(),
            Json::Object(_) => "map".to_owned(),
        }
    }

    /// The complaint that the value is of another type than expected.
    pub fn mistyped(&self, expected: &str) -> (r: ParamError)
        ensures
            r@ == self@.mistyped(expected@),
    {
        ParamError::InvalidType { found: self.describe(), expected: expected.to_owned() }
    }

    /// The value as a signed 64-bit integer.
    pub fn as_integer(&self) -> (r: Result<i64, ParamError>)
        ensures
            match r {
                Ok(n) => self@.integer() == Ok::<i64, ParamErrorView>(n),
                Err(e) => self@.integer() == Err::<i64, ParamErrorView>(e@),
            },
    {
        match self {
            Json::Unsigned(n) => if *n <= i64::MAX as u64 {
                Ok(*n as i64)
            } else {
                Err(ParamError::InvalidValue { found: self.describe(), expected: "i64".to_owned() })
            },
            Json::Negative(n) => Ok(*n),
            _ => Err(self.mistyped("i64")),
        }
    }

    /// The value as a list of texts.
    pub fn as_text_list(&self) -> (r: Result<Vec<String>, ParamError>)
        ensures
            match r {
                Ok(texts) => self@.text_list() == Ok::<Seq<Seq<char>>, ParamErrorView>(
                    texts@.map_values(|t: String| t@),
                ),
                Err(e) => self@.text_list() == Err::<Seq<Seq<char>>, ParamErrorView>(e@),
            },
    {
        let items = match self {
            Json::Array(items) => items,
            _ => return Err(self.mistyped("a sequence")),
        };
        proof {
            lemma_array(*items);
        }
        let ghost models = self@->Array_0;
        let mut texts: Vec<String> = Vec::new();
        let mut i: usize = 0;
        assert(texts@.map_values(|t: String| t@) =~= Seq::<Seq<char>>::empty());
        while i < items.len()
            invariant
                i <= items.len(),
                self@ == JsonView::Array(models),
                models == items@.map_values(|v: Json| v@),
                texts_of(models.take(i as int)) == Ok::<Seq<Seq<char>>, ParamErrorView>(
                    texts@.map_values(|t: String| t@),
                ),
            decreases items.len() - i,
        {
            let ghost earlier = texts@;
            assert(models.take(i + 1).drop_last() =~= models.take(i as int));
            assert(models.take(i + 1).last() == items@[i as int]@);
            match &items[i] {
                Json::Text(s) => {
                    texts.push(s.clone());
                    assert(texts@.map_values(|t: String| t@) =~= earlier.map_values(
                        |t: String| t@,
                    ).push(s@));
                },
                other => {
                    let e = other.mistyped("a string");
                    proof {
                        lemma_first_complaint(models, i + 1);
                    }
                    return Err(e);
                },
            }
            i += 1;
        }
        assert(models.take(i as int) =~= models);
        Ok(texts)
    }
}

/// A complaint about the first `n` values is the complaint about all of them.
proof fn lemma_first_complaint(items: Seq<JsonView>, n: int)
    requires
        0 <= n <= items.len(),
        texts_of(items.take(n)) is Err,
    ensures
        texts_of(items) == texts_of(items.take(n)),
    decreases items.len() - n,
{
    if n == items.len() {
        assert(items.take(n) =~= items);
    } else {
        assert(items.take(n + 1).drop_last() =~= items.take(n));
        lemma_first_complaint(items, n + 1);
    }
}

/// The place of the first field with the name, or the number of fields where there
/// is none.
fn find_place(fields: &Vec<(String, Json)>, name: &str) -> (r: usize)
    ensures
        r == first_with(fields@, name@),
        r <= fields@.len(),
{
    let mut i: usize = 0;
    assert(fields@.skip(0) =~= fields@);
    while i < fields.len()
        invariant
            i <= fields.len(),
            first_with(fields@, name@) == i + first_with(fields@.skip(i as int), name@),
        decreases fields.len() - i,
    {
        assert(fields@.skip(i as int).first() == fields@[i as int]);
        assert(fields@.skip(i as int).drop_first() =~= fields@.skip(i + 1));
        if same_text(fields[i].0.as_str(), name) {
            return i;
        }
        i += 1;
    }
    i
}

/// The value of the first field with the name.
pub fn find_field<'a>(fields: &'a Vec<(String, Json)>, name: &str) -> (r: Option<&'a Json>)
    ensures
        match r {
            Some(value) => {
                &&& Json::Object(*fields)@->Object_0.contains_key(name@)
                &&& Json::Object(*fields)@->Object_0[name@] == value@
            },
            None => !Json::Object(*fields)@->Object_0.contains_key(name@),
        },
{
    proof {
        lemma_object(*fields);
    }
    let i: usize = find_place(fields, name);
    if i < fields.len() {
        Some(&fields[i].1)
    } else {
        None
    }
}

impl JsonView {
    /// Whether whole numbers are held as they are to be: a number held as negative is
    /// below zero, here and in every item and field.
    pub open spec fn well_formed(self) -> bool
        decreases self,
    {
        match self {
            JsonView::Negative(n) => n < 0,
            JsonView::Array(items) => forall|i: int|
                0 <= i < items.len() ==> (#[trigger] items[i]).well_formed(),
            JsonView::Object(fields) => forall|name: Seq<char>|
                fields.contains_key(name) ==> (#[trigger] fields[name]).well_formed(),
            _ => true,
        }
    }

    /// The value as a whole number, where it is one.
    pub open spec fn whole(self) -> Option<int> {
        match self {
            JsonView::Unsigned(n) => Some(n as int),
            JsonView::Negative(n) => Some(n as int),
            _ => None,
        }
    }
}

/// Two well-formed whole numbers are the same exactly where their values are, and one
/// is read as a signed 64-bit integer exactly where its value is one.
pub proof fn law_whole_numbers(a: JsonView, b: JsonView)
    requires
        a.well_formed(),
        b.well_formed(),
        a.whole() is Some,
        b.whole() is Some,
    ensures
        a.same(b) <==> a.whole() == b.whole(),
        a.integer() is Ok <==> i64::MIN <= a.whole()->0 <= i64::MAX,
        a.integer() matches Ok(n) ==> n == a.whole()->0,
{
}

/// Values that are the same are well-formed together.
pub proof fn law_same_keeps_well_formed(a: JsonView, b: JsonView)
    requires
        a.same(b),
    ensures
        a.well_formed() <==> b.well_formed(),
    decreases a,
{
    match (a, b) {
        (JsonView::Array(left), JsonView::Array(right)) => {
            assert forall|i: int| 0 <= i < left.len() implies (#[trigger] left[i]).well_formed()
                == right[i].well_formed() by {
                law_same_keeps_well_formed(left[i], right[i]);
            }
            assert(a.well_formed() ==> b.well_formed()) by {
                if a.well_formed() {
                    assert forall|i: int| 0 <= i < right.len() implies (
                    #[trigger] right[i]).well_formed() by {
                        assert(left[i].well_formed());
                    }
                }
            }
        },
        (JsonView::Object(left), JsonView::Object(right)) => {
            assert forall|name: Seq<char>| left.contains_key(name) implies (
            #[trigger] left[name]).well_formed() == right[name].well_formed() by {
                law_same_keeps_well_formed(left[name], right[name]);
            }
            assert(a.well_formed() ==> b.well_formed()) by {
                if a.well_formed() {
                    assert forall|name: Seq<char>| right.contains_key(name) implies (
                    #[trigger] right[name]).well_formed() by {
                        assert(left.contains_key(name) && left[name].well_formed());
                    }
                }
            }
            assert(b.well_formed() ==> a.well_formed()) by {
                if b.well_formed() {
                    assert forall|name: Seq<char>| left.contains_key(name) implies (
                    #[trigger] left[name]).well_formed() by {
                        assert(right.contains_key(name) && right[name].well_formed());
                    }
                }
            }
        },
        _ => {},
    }
}

/// Values are compared as an equivalence: each is the same as itself, and being the
/// same goes both ways and passes on from value to value.
pub proof fn law_same_is_an_equivalence(a: JsonView, b: JsonView, c: JsonView)
    ensures
        a.same(a),
        a.same(b) ==> b.same(a),
        a.same(b) && b.same(c) ==> a.same(c),
    decreases a,
{
    match a {
        JsonView::Array(items) => {
            assert forall|i: int| 0 <= i < items.len() implies (#[trigger] items[i]).same(items[i]) by {
                law_same_is_an_equivalence(items[i], items[i], items[i]);
            }
            if a.same(b) {
                let others = b->Array_0;
                assert forall|i: int| 0 <= i < others.len() implies (#[trigger] others[i]).same(
                    items[i],
                ) by {
                    law_same_is_an_equivalence(items[i], others[i], items[i]);
                }
                if b.same(c) {
                    let last = c->Array_0;
                    assert forall|i: int| 0 <= i < items.len() implies (#[trigger] items[i]).same(
                        last[i],
                    ) by {
                        assert(others[i].same(last[i]));
                        law_same_is_an_equivalence(items[i], others[i], last[i]);
                    }
                }
            }
        },
        JsonView::Object(fields) => {
            assert forall|name: Seq<char>| fields.contains_key(name) implies (
            #[trigger] fields[name]).same(fields[name]) by {
                law_same_is_an_equivalence(fields[name], fields[name], fields[name]);
            }
            if a.same(b) {
                let others = b->Object_0;
                assert forall|name: Seq<char>| others.contains_key(name) implies (
                #[trigger] others[name]).same(fields[name]) by {
                    assert(fields.contains_key(name));
                    law_same_is_an_equivalence(fields[name], others[name], fields[name]);
                }
                if b.same(c) {
                    let last = c->Object_0;
                    assert forall|name: Seq<char>| fields.contains_key(name) implies (
                    #[trigger] fields[name]).same(last[name]) by {
                        assert(others.contains_key(name));
                        assert(others[name].same(last[name]));
                        law_same_is_an_equivalence(fields[name], others[name], last[name]);
                    }
                }
            }
        },
        _ => {},
    }
}

/// Values are read as texts exactly where each of them is one, and then in their
/// order.
pub proof fn law_texts(items: Seq<JsonView>)
    ensures
        texts_of(items) is Ok <==> forall|i: int|
            0 <= i < items.len() ==> (#[trigger] items[i]) is Text,
        texts_of(items) matches Ok(texts) ==> texts.len() == items.len() && forall|i: int|
            0 <= i < items.len() ==> #[trigger] items[i] == JsonView::Text(texts[i]),
    decreases items.len(),
{
    if items.len() > 0 {
        let rest = items.drop_last();
        law_texts(rest);
        assert forall|i: int| 0 <= i < rest.len() implies rest[i] == #[trigger] items[i] by {}
        if texts_of(items) is Ok {
            assert forall|i: int| 0 <= i < items.len() implies (#[trigger] items[i]) is Text by {
                if i < rest.len() {
                    assert(rest[i] is Text);
                }
            }
        }
        if forall|i: int| 0 <= i < items.len() ==> (#[trigger] items[i]) is Text {
            assert(items[items.len() - 1] is Text);
            assert forall|i: int| 0 <= i < rest.len() implies (#[trigger] rest[i]) is Text by {
                assert(items[i] is Text);
            }
        }
    }
}

/// The model of an array holds the models of its items.
pub proof fn lemma_array(items: Vec<Json>)
    ensures
        Json::Array(items)@ == JsonView::Array(items@.map_values(|v: Json| v@)),
{
    reveal_with_fuel(Json::model, 2);
    assert(Json::Array(items)@->Array_0 =~= items@.map_values(|v: Json| v@));
}

/// The fields as a map: under each name stands the model of its first field's value.
pub open spec fn object_model(fields: Seq<(String, Json)>) -> Map<Seq<char>, JsonView> {
    Map::new(
        |name: Seq<char>| first_with(fields, name) < fields.len(),
        |name: Seq<char>| fields[first_with(fields, name) as int].1@,
    )
}

/// The model of an object is the map of its fields.
pub proof fn lemma_object(fields: Vec<(String, Json)>)
    ensures
        Json::Object(fields)@ == JsonView::Object(object_model(fields@)),
{
    reveal_with_fuel(Json::model, 2);
    assert(Json::Object(fields)@->Object_0 =~= object_model(fields@));
}

/// The first field with a name has that name, and no field before it does.
pub proof fn lemma_first_with(fields: Seq<(String, Json)>, name: Seq<char>)
    ensures
        first_with(fields, name) <= fields.len(),
        first_with(fields, name) < fields.len() ==> fields[first_with(fields, name) as int].0@
            == name,
        forall|k: int| 0 <= k < first_with(fields, name) ==> (#[trigger] fields[k]).0@ != name,
    decreases fields.len(),
{
    if fields.len() > 0 && fields.first().0@ != name {
        let rest = fields.drop_first();
        lemma_first_with(rest, name);
        assert forall|k: int| 0 <= k < first_with(fields, name) implies (
        #[trigger] fields[k]).0@ != name by {
            if k > 0 {
                assert(rest[k - 1] == fields[k]);
            }
        }
    }
}

/// The model of a value keeps what it is: a scalar with its number or text, an array
/// with its items in their order, and an object with the first value under each name
/// that stands in it, and no other name.
pub proof fn law_models_keep_values(
    text: String,
    b: bool,
    n: u64,
    m: i64,
    items: Vec<Json>,
    fields: Vec<(String, Json)>,
    i: int,
    name: Seq<char>,
)
    ensures
        Json::Null@ is Null,
        Json::Bool(b)@ == JsonView::Bool(b),
        Json::Unsigned(n)@ == JsonView::Unsigned(n),
        Json::Negative(m)@ == JsonView::Negative(m),
        Json::Fraction(text)@ == JsonView::Fraction(text@),
        Json::Text(text)@ == JsonView::Text(text@),
        Json::Array(items)@ matches JsonView::Array(told) && told.len() == items@.len() && (0 <= i
            < items@.len() ==> told[i] == items@[i]@),
        Json::Object(fields)@ matches JsonView::Object(told) && {
            &&& told.contains_key(name) <==> exists|k: int|
                0 <= k < fields@.len() && (#[trigger] fields@[k]).0@ == name
            &&& 0 <= i < fields@.len() && (forall|k: int|
                0 <= k < i ==> (#[trigger] fields@[k]).0@ != fields@[i].0@)
                ==> told[fields@[i].0@] == fields@[i].1@
        },
{
    lemma_array(items);
    lemma_object(fields);
    lemma_first_with(fields@, name);
    let told = object_model(fields@);
    if told.contains_key(name) {
        assert(fields@[first_with(fields@, name) as int].0@ == name);
    }
    if 0 <= i < fields@.len() {
        let own = fields@[i].0@;
        lemma_first_with(fields@, own);
        let first = first_with(fields@, own) as int;
        if forall|k: int| 0 <= k < i ==> (#[trigger] fields@[k]).0@ != own {
            assert(first < i ==> fields@[first].0@ != own);
            assert(first == i);
            assert(told.contains_key(own));
        }
    }
}

/// Whether no number that is not whole stands in the value.
pub open spec fn is_exact(value: JsonView) -> bool
    decreases value,
{
    match value {
        JsonView::Fraction(_) => false,
        JsonView::Array(items) => forall|i: int| 0 <= i < items.len() ==> is_exact(#[trigger] items[i]),
        JsonView::Object(fields) => forall|name: Seq<char>|
            fields.contains_key(name) ==> is_exact(#[trigger] fields[name]),
        _ => true,
    }
}

/// A value in which every number is whole is the same as itself alone; and two numbers
/// that are not whole are the same exactly where they are written alike or are both
/// zero.
pub proof fn law_same_is_equal(a: JsonView, b: JsonView, s: Seq<char>, t: Seq<char>)
    ensures
        is_exact(a) ==> (a.same(b) <==> a == b),
        JsonView::Fraction(s).same(JsonView::Fraction(t)) <==> s == t || ((s == "0.0"@ || s
            == "-0.0"@) && (t == "0.0"@ || t == "-0.0"@)),
    decreases a,
{
    law_same_is_an_equivalence(a, a, a);
    if is_exact(a) && a.same(b) {
        match (a, b) {
            (JsonView::Array(left), JsonView::Array(right)) => {
                assert forall|i: int| 0 <= i < left.len() implies left[i] == right[i] by {
                    law_same_is_equal(left[i], right[i], s, t);
                }
                assert(left =~= right);
            },
            (JsonView::Object(left), JsonView::Object(right)) => {
                assert forall|name: Seq<char>| left.contains_key(name) implies left[name]
                    == right[name] by {
                    law_same_is_equal(left[name], right[name], s, t);
                }
                assert(left =~= right);
            },
            _ => {},
        }
    }
}

/// Where some value of a list is no text, the complaint is about the first such value:
/// it tells that value, and that a text was expected.
pub proof fn law_the_first_value_that_is_no_text(items: Seq<JsonView>, i: int)
    requires
        0 <= i < items.len(),
        !(items[i] is Text),
        forall|k: int| 0 <= k < i ==> (#[trigger] items[k]) is Text,
    ensures
        texts_of(items) == Err::<Seq<Seq<char>>, ParamErrorView>(
            ParamErrorView::InvalidType { found: items[i].description(), expected: "a string"@ },
        ),
{
    let upto = items.take(i + 1);
    assert(upto.drop_last() =~= items.take(i));
    law_texts(items.take(i));
    assert(texts_of(upto) is Err);
    lemma_first_complaint(items, i + 1);
}

/// A whole number that no signed 64-bit integer holds is refused as out of range, any
/// other value but a whole number as of the wrong type; and what is no array is no
/// list.
pub proof fn law_why_values_are_refused(value: JsonView)
    ensures
        value.integer() matches Err(e) ==> match value {
            JsonView::Unsigned(n) => n > 0x7fff_ffff_ffff_ffff && e == (
            ParamErrorView::InvalidValue { found: value.description(), expected: "i64"@ }),
            _ => value.whole() is None && e == (ParamErrorView::InvalidType {
                found: value.description(),
                expected: "i64"@,
            }),
        },
        !(value is Array) ==> value.text_list() == Err::<Seq<Seq<char>>, ParamErrorView>(
            ParamErrorView::InvalidType { found: value.description(), expected: "a sequence"@ },
        ),
        value matches JsonView::Array(items) ==> value.text_list() == texts_of(items),
{
}

/// A value is told of with what it is and, where it has one, with its number or text
/// in full.
pub proof fn law_descriptions(n: u64, m: i64, s: Seq<char>, items: Seq<JsonView>, fields: Map<
    Seq<char>,
    JsonView,
>)
    ensures
        JsonView::Unsigned(n).description() =~= "integer `"@ + (integer_text(n as int) + "`"@),
        JsonView::Negative(m).description() =~= "integer `"@ + (integer_text(m as int) + "`"@),
        JsonView::Fraction(s).description() =~= "floating point `"@ + (s + "`"@),
        JsonView::Text(s).description() =~= "string "@ + quoted(s),
        JsonView::Array(items).description() == "sequence"@,
        JsonView::Object(fields).description() == "map"@,
{
}

/// A value that is of another type than expected is complained of with what it is and
/// what was expected; null and the two truth values are told of by name.
pub proof fn law_complaints(value: JsonView, expected: Seq<char>)
    ensures
        value.mistyped(expected) matches ParamErrorView::InvalidType { found, expected: e } && found
            == value.description() && e == expected,
        value is Null ==> value.description() == "null"@,
        value matches JsonView::Bool(b) ==> value.description() == (if b {
            "boolean `true`"@
        } else {
            "boolean `false`"@
        }),
{
}

/// Values are equal exactly where their models are the same.
pub proof fn law_values_are_told_apart(a: Json, b: Json)
    ensures
        a.eq_spec(&b) <==> a@.same(b@),
{
}

/// Arrays are the same exactly where they are of one length and the same at every
/// place, objects exactly where they have the same names and the same under each; and
/// values of different kinds are never the same.
pub proof fn law_same_goes_part_by_part(
    a: Seq<JsonView>,
    b: Seq<JsonView>,
    left: Map<Seq<char>, JsonView>,
    right: Map<Seq<char>, JsonView>,
    value: JsonView,
)
    ensures
        JsonView::Array(a).same(JsonView::Array(b)) <==> a.len() == b.len() && forall|i: int|
            0 <= i < a.len() ==> (#[trigger] a[i]).same(b[i]),
        JsonView::Object(left).same(JsonView::Object(right)) <==> (forall|name: Seq<char>|
            left.contains_key(name) <==> #[trigger] right.contains_key(name)) && forall|
            name: Seq<char>,
        |
            left.contains_key(name) ==> (#[trigger] left[name]).same(right[name]),
        JsonView::Array(a).same(value) ==> value is Array,
        JsonView::Object(left).same(value) ==> value is Object,
        forall|text: Seq<char>| #[trigger]
            JsonView::Fraction(text).same(value) ==> value is Fraction,
{
    if forall|name: Seq<char>| left.contains_key(name) <==> #[trigger] right.contains_key(name) {
        assert forall|name: Seq<char>| #[trigger]
            left.dom().contains(name) == right.dom().contains(name) by {
            assert(left.contains_key(name) <==> right.contains_key(name));
        }
        assert(left.dom() =~= right.dom());
    }
}

} // verus!
