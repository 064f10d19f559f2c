//! The parameters of a request (path and query values, by name), and the
//! types a parameter can be read as.
use vstd::prelude::*;
use crate::text::{decimal, lemma_decimal_reads_as, parse_integer, spec_parse_int};

verus! {

/// One parameter value: text, as path and query values are, or any other
/// kind of value (a list, an object, a number, ...).
pub enum ParamValue {
    Text(String),
    Other,
}

impl View for ParamValue {
    /// The text of a text value; `None` for any other kind of value.
    type V = Option<Seq<char>>;

    open spec fn view(&self) -> Option<Seq<char>> {
        match self {
            ParamValue::Text(s) => Some(s@),
            ParamValue::Other => None,
        }
    }
}

/// The first value stored under `key` in a list of named values.
pub open spec fn lookup(
    entries: Seq<(Seq<char>, Option<Seq<char>>)>,
    key: Seq<char>,
) -> Option<Option<Seq<char>>>
    decreases entries.len(),
{
    if entries.len() == 0 {
        None
    } else if entries[0].0 == key {
        Some(entries[0].1)
    } else {
        lookup(entries.drop_first(), key)
    }
}

/// Named parameter values, as a request carries them.
pub struct Params {
    entries: Vec<(String, ParamValue)>,
}

impl View for Params {
    type V = Seq<(Seq<char>, Option<Seq<char>>)>;

    closed spec fn view(&self) -> Seq<(Seq<char>, Option<Seq<char>>)> {
        self.entries@.map_values(|e: (String, ParamValue)| (e.0@, e.1@))
    }
}

proof fn lemma_lookup_push(
    s: Seq<(Seq<char>, Option<Seq<char>>)>,
    e: (Seq<char>, Option<Seq<char>>),
    k: Seq<char>,
)
    ensures
        lookup(s.push(e), k) == match lookup(s, k) {
            Some(x) => Some(x),
            None => if e.0 == k { Some(e.1) } else { None },
        },
    decreases s.len(),
{
    if s.len() > 0 {
        assert(s.push(e)[0] == s[0]);
        assert(s.push(e).drop_first() =~= s.drop_first().push(e));
        lemma_lookup_push(s.drop_first(), e, k);
    } else {
        assert(s.push(e)[0] == e);
        assert(s.push(e).drop_first() =~= Seq::<(Seq<char>, Option<Seq<char>>)>::empty());
        assert(lookup(s.push(e).drop_first(), k) is None);
    }
}

proof fn lemma_lookup_update(
    s: Seq<(Seq<char>, Option<Seq<char>>)>,
    i: int,
    e: (Seq<char>, Option<Seq<char>>),
    k: Seq<char>,
)
    requires
        0 <= i < s.len(),
        s[i].0 == e.0,
        forall|j: int| 0 <= j < i ==> s[j].0 != e.0,
    ensures
        lookup(s.update(i, e), k) == if k == e.0 { Some(e.1) } else { lookup(s, k) },
    decreases i,
{
    let u = s.update(i, e);
    if i == 0 {
        assert(u.drop_first() =~= s.drop_first());
    } else {
        assert(s[0].0 != e.0);
        assert(u.drop_first() =~= s.drop_first().update(i - 1, e));
        if s[0].0 != k {
            assert forall|j: int| 0 <= j < i - 1 implies s.drop_first()[j].0 != e.0 by {
                assert(s.drop_first()[j] == s[j + 1]);
            }
            lemma_lookup_update(s.drop_first(), i - 1, e, k);
        }
    }
}

impl Params {
    /// No parameters.
    pub fn new() -> (r: Params)
        ensures
            r@ == Seq::<(Seq<char>, Option<Seq<char>>)>::empty(),
    {
        let r = Params { entries: Vec::new() };
        assert(r@ =~= Seq::<(Seq<char>, Option<Seq<char>>)>::empty());
        r
    }

    /// Finds the position of the parameter named `key`, if there is one.
    fn position(&self, key: &String) -> (r: Option<usize>)
        ensures
            match r {
                Some(i) => {
                    &&& i < self@.len()
                    &&& self@[i as int].0 == key@
                    &&& forall|j: int| 0 <= j < i ==> self@[j].0 != key@
                    &&& lookup(self@, key@) == Some(self@[i as int].1)
                },
                None => lookup(self@, key@) is None,
            },
    {
        let n = self.entries.len();
        let mut i: usize = 0;
        assert(self@.skip(0) =~= self@);
        while i < n
            invariant
                n == self.entries@.len(),
                n == self@.len(),
                i <= n,
                forall|j: int| 0 <= j < i ==> self@[j].0 != key@,
                lookup(self@, key@) == lookup(self@.skip(i as int), key@),
            decreases n - i,
        {
            assert(self@[i as int] == (self.entries@[i as int].0@, self.entries@[i as int].1@));
            assert(self@.skip(i as int)[0] == self@[i as int]);
            if self.entries[i].0 == *key {
                return Some(i);
            }
            assert(self@.skip(i as int).drop_first() =~= self@.skip(i + 1));
            i = i + 1;
        }
        assert(self@.skip(i as int) =~= Seq::<(Seq<char>, Option<Seq<char>>)>::empty());
        None
    }

    /// The value of the parameter named `key`, if there is one.
    pub fn get(&self, key: &str) -> (r: Option<&ParamValue>)
        ensures
            match r {
                Some(v) => lookup(self@, key@) == Some(v@),
                None => lookup(self@, key@) is None,
            },
    {
        let k = String::from_str(key);
        match self.position(&k) {
            Some(i) => {
                assert(self@[i as int].1 == self.entries@[i as int].1@);
                Some(&self.entries[i].1)
            },
            None => None,
        }
    }

    /// Sets the parameter named `key` to `value`, replacing any value it had.
    pub fn insert(&mut self, key: String, value: ParamValue)
        ensures
            lookup(final(self)@, key@) == Some(value@),
            forall|k: Seq<char>| k != key@ ==> lookup(final(self)@, k) == lookup(old(self)@, k),
    {
        let ghost e = (key@, value@);
        match self.position(&key) {
            Some(i) => {
                let ghost s = self@;
                self.entries.set(i, (key, value));
                assert(self@ =~= s.update(i as int, e));
                proof {
                    lemma_lookup_update(s, i as int, e, e.0);
                    assert forall|k: Seq<char>| k != e.0 implies lookup(self@, k) == lookup(s, k) by {
                        lemma_lookup_update(s, i as int, e, k);
                    }
                }
            },
            None => {
                let ghost s = self@;
                self.entries.push((key, value));
                assert(self@ =~= s.push(e));
                proof {
                    lemma_lookup_push(s, e, e.0);
                    assert forall|k: Seq<char>| k != e.0 implies lookup(self@, k) == lookup(s, k) by {
                        lemma_lookup_push(s, e, k);
                    }
                }
            },
        }
    }
}

/// A type that a parameter's text can be read as, the way std's `FromStr`
/// reads it.
pub trait FromParam: View + Sized {
    /// What reading `text` gives: `None` where the text does not denote a value.
    spec fn parse_spec(text: Seq<char>) -> Option<Self::V>;

    /// The name of the type, as error messages give it.
    spec fn type_label_spec() -> Seq<char>;

    fn from_param(text: &str) -> (r: Option<Self>)
        ensures
            match r {
                Some(v) => Self::parse_spec(text@) == Some(v@),
                None => Self::parse_spec(text@) is None,
            },
    ;

    fn type_label() -> (r: &'static str)
        ensures
            r@ == Self::type_label_spec(),
    ;
}

impl FromParam for i32 {
    open spec fn parse_spec(text: Seq<char>) -> Option<i32> {
        match spec_parse_int(text, true, i32::MIN as int, i32::MAX as int) {
            Some(v) => Some(v as i32),
            None => None,
        }
    }

    open spec fn type_label_spec() -> Seq<char> {
        seq!['i', '3', '2']
    }

    fn from_param(text: &str) -> (r: Option<i32>) {
        match parse_integer(text, true, i32::MIN as i64, i32::MAX as i64) {
            Some(v) => Some(v as i32),
            None => None,
        }
    }

    fn type_label() -> (r: &'static str) {
        proof { reveal_strlit("i32"); }
        "i32"
    }
}

impl FromParam for i64 {
    open spec fn parse_spec(text: Seq<char>) -> Option<i64> {
        match spec_parse_int(text, true, i64::MIN as int, i64::MAX as int) {
            Some(v) => Some(v as i64),
            None => None,
        }
    }

    open spec fn type_label_spec() -> Seq<char> {
        seq!['i', '6', '4']
    }

    fn from_param(text: &str) -> (r: Option<i64>) {
        parse_integer(text, true, i64::MIN, i64::MAX)
    }

    fn type_label() -> (r: &'static str) {
        proof { reveal_strlit("i64"); }
        "i64"
    }
}

impl FromParam for u16 {
    open spec fn parse_spec(text: Seq<char>) -> Option<u16> {
        match spec_parse_int(text, false, 0, u16::MAX as int) {
            Some(v) => Some(v as u16),
            None => None,
        }
    }

    open spec fn type_label_spec() -> Seq<char> {
        seq!['u', '1', '6']
    }

    fn from_param(text: &str) -> (r: Option<u16>) {
        match parse_integer(text, false, 0, u16::MAX as i64) {
            Some(v) => Some(v as u16),
            None => None,
        }
    }

    fn type_label() -> (r: &'static str) {
        proof { reveal_strlit("u16"); }
        "u16"
    }
}

impl FromParam for String {
    /// Any text reads as itself.
    open spec fn parse_spec(text: Seq<char>) -> Option<Seq<char>> {
        Some(text)
    }

    open spec fn type_label_spec() -> Seq<char> {
        seq!['S', 't', 'r', 'i', 'n', 'g']
    }

    fn from_param(text: &str) -> (r: Option<String>)
        ensures
            r matches Some(s) && s@ == text@,
    {
        Some(String::from_str(text))
    }

    fn type_label() -> (r: &'static str) {
        proof { reveal_strlit("String"); }
        "String"
    }
}

/// Any text parameter reads as a `String` holding exactly that text, however
/// long it is.
pub proof fn lemma_string_param_is_its_text(text: Seq<char>)
    ensures
        <String as FromParam>::parse_spec(text) == Some(text),
        <String as FromParam>::parse_spec(text) matches Some(s) && s.len() == text.len(),
{
}

/// The decimal text of every integer from 0 to 65535 reads as a `u16` of
/// that value, and the decimal text of no other integer reads as a `u16`.
pub proof fn lemma_u16_reads_its_whole_range(n: int)
    ensures
        0 <= n <= 65535 ==> <u16 as FromParam>::parse_spec(decimal(n)) == Some(n as u16),
        !(0 <= n <= 65535) ==> <u16 as FromParam>::parse_spec(decimal(n)) is None,
{
    lemma_decimal_reads_as(n, false, 0, u16::MAX as int);
}

/// The decimal text of every `i32` reads as that `i32`, and the decimal text
/// of no integer outside the `i32` range reads as an `i32`.
pub proof fn lemma_i32_reads_its_whole_range(n: int)
    ensures
        i32::MIN <= n <= i32::MAX ==> <i32 as FromParam>::parse_spec(decimal(n)) == Some(n as i32),
        !(i32::MIN <= n <= i32::MAX) ==> <i32 as FromParam>::parse_spec(decimal(n)) is None,
{
    lemma_decimal_reads_as(n, true, i32::MIN as int, i32::MAX as int);
}

/// The decimal text of every `i64` reads as that `i64`, and the decimal text
/// of no integer outside the `i64` range reads as an `i64`.
pub proof fn lemma_i64_reads_its_whole_range(n: int)
    ensures
        i64::MIN <= n <= i64::MAX ==> <i64 as FromParam>::parse_spec(decimal(n)) == Some(n as i64),
        !(i64::MIN <= n <= i64::MAX) ==> <i64 as FromParam>::parse_spec(decimal(n)) is None,
{
    lemma_decimal_reads_as(n, true, i64::MIN as int, i64::MAX as int);
}

} // verus!
