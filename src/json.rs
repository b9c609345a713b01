use vstd::prelude::*;

verus! {

/// A JSON value as the gateway holds it.
#[derive(Debug)]
pub enum Json {
    Null,
    Bool(bool),
    Int(i64),
    /// A number that is not an `i64` (a fraction, or an integer out of its
    /// range), kept as its JSON text.
    Number(String),
    Str(String),
    Array(Vec<Json>),
    /// Members in document order.
    Object(Vec<(String, Json)>),
}

/// The mathematical value of a [`Json`].
pub enum JsonModel {
    Null,
    Bool(bool),
    Int(int),
    Number(Seq<char>),
    Str(Seq<char>),
    Array(Seq<JsonModel>),
    Object(Seq<(Seq<char>, JsonModel)>),
}

pub open spec fn json_view(j: Json) -> JsonModel
    decreases j,
{
    match j {
        Json::Null => JsonModel::Null,
        Json::Bool(b) => JsonModel::Bool(b),
        Json::Int(n) => JsonModel::Int(n as int),
        Json::Number(t) => JsonModel::Number(t@),
        Json::Str(s) => JsonModel::Str(s@),
        Json::Array(items) => JsonModel::Array(items_view(items@)),
        Json::Object(entries) => JsonModel::Object(entries_view(entries@)),
    }
}

pub open spec fn items_view(s: Seq<Json>) -> Seq<JsonModel>
    decreases s,
{
    if s.len() == 0 {
        Seq::empty()
    } else {
        items_view(s.subrange(0, s.len() - 1)).push(json_view(s[s.len() - 1]))
    }
}

pub open spec fn entries_view(s: Seq<(String, Json)>) -> Seq<(Seq<char>, JsonModel)>
    decreases s,
{
    if s.len() == 0 {
        Seq::empty()
    } else {
        entries_view(s.subrange(0, s.len() - 1)).push(
            (s[s.len() - 1].0@, json_view(s[s.len() - 1].1)),
        )
    }
}

impl View for Json {
    type V = JsonModel;

    open spec fn view(&self) -> JsonModel {
        json_view(*self)
    }
}

pub proof fn lemma_items_view_push(s: Seq<Json>, j: Json)
    ensures
        items_view(s.push(j)) == items_view(s).push(json_view(j)),
{
    assert(s.push(j).subrange(0, s.len() as int) =~= s);
}

pub proof fn lemma_entries_view_push(s: Seq<(String, Json)>, e: (String, Json))
    ensures
        entries_view(s.push(e)) == entries_view(s).push((e.0@, json_view(e.1))),
{
    assert(s.push(e).subrange(0, s.len() as int) =~= s);
}


pub proof fn lemma_items_view_index(s: Seq<Json>)
    ensures
        items_view(s).len() == s.len(),
        forall|k: int| 0 <= k < s.len() ==> #[trigger] items_view(s)[k] == json_view(s[k]),
    decreases s.len(),
{
    if s.len() > 0 {
        let p = s.subrange(0, s.len() - 1);
        lemma_items_view_index(p);
        assert forall|k: int| 0 <= k < s.len() implies #[trigger] items_view(s)[k] == json_view(
            s[k],
        ) by {
            if k < s.len() - 1 {
                assert(p[k] == s[k]);
            }
        }
    }
}

pub proof fn lemma_entries_view_index(s: Seq<(String, Json)>)
    ensures
        entries_view(s).len() == s.len(),
        forall|k: int|
            0 <= k < s.len() ==> #[trigger] entries_view(s)[k] == (s[k].0@, json_view(s[k].1)),
    decreases s.len(),
{
    if s.len() > 0 {
        let p = s.subrange(0, s.len() - 1);
        lemma_entries_view_index(p);
        assert forall|k: int| 0 <= k < s.len() implies #[trigger] entries_view(s)[k] == (
            s[k].0@,
            json_view(s[k].1),
        ) by {
            if k < s.len() - 1 {
                assert(p[k] == s[k]);
            }
        }
    }
}

/// The character of a decimal digit.
pub open spec fn digit_char(d: int) -> char {
    if d == 0 {
        '0'
    } else if d == 1 {
        '1'
    } else if d == 2 {
        '2'
    } else if d == 3 {
        '3'
    } else if d == 4 {
        '4'
    } else if d == 5 {
        '5'
    } else if d == 6 {
        '6'
    } else if d == 7 {
        '7'
    } else if d == 8 {
        '8'
    } else {
        '9'
    }
}

/// The decimal digits of `n`, most significant first, without leading zeros.
pub open spec fn digits(n: nat) -> Seq<char>
    decreases n,
{
    if n < 10 {
        seq![digit_char(n as int)]
    } else {
        digits(n / 10).push(digit_char((n % 10) as int))
    }
}

/// The decimal text of an integer, with a leading `-` when it is negative.
pub open spec fn decimal(n: int) -> Seq<char> {
    if n < 0 {
        seq!['-'] + digits((-n) as nat)
    } else {
        digits(n as nat)
    }
}

/// The JSON string literal that stands for `s`: quotes and escapes included.
pub uninterp spec fn json_quoted(s: Seq<char>) -> Seq<char>;

/// The compact JSON text of a value.
pub open spec fn encode(v: JsonModel) -> Seq<char>
    decreases v,
{
    match v {
        JsonModel::Null => "null"@,
        JsonModel::Bool(b) => if b {
            "true"@
        } else {
            "false"@
        },
        JsonModel::Int(n) => decimal(n),
        JsonModel::Number(t) => t,
        JsonModel::Str(s) => json_quoted(s),
        JsonModel::Array(items) => "["@ + encode_items(items) + "]"@,
        JsonModel::Object(entries) => "{"@ + encode_entries(entries) + "}"@,
    }
}

/// The elements of an array, separated by commas.
pub open spec fn encode_items(s: Seq<JsonModel>) -> Seq<char>
    decreases s,
{
    if s.len() == 0 {
        Seq::empty()
    } else if s.len() == 1 {
        encode(s[0])
    } else {
        encode_items(s.subrange(0, s.len() - 1)) + ","@ + encode(s[s.len() - 1])
    }
}

/// The members of an object, each as `"key":value`, separated by commas.
pub open spec fn encode_entries(s: Seq<(Seq<char>, JsonModel)>) -> Seq<char>
    decreases s,
{
    if s.len() == 0 {
        Seq::empty()
    } else if s.len() == 1 {
        json_quoted(s[0].0) + ":"@ + encode(s[0].1)
    } else {
        encode_entries(s.subrange(0, s.len() - 1)) + ","@ + json_quoted(s[s.len() - 1].0) + ":"@
            + encode(s[s.len() - 1].1)
    }
}

/// Relies on serde_json's `Display` for `Value::String`, which writes the
/// JSON string literal of its text.
#[verifier::external_body]
fn quote(s: &str) -> (r: String)
    ensures
        r@ == json_quoted(s@),
{
    serde_json::Value::String(s.to_string()).to_string()
}

fn digit_text(d: u64) -> (r: &'static str)
    requires
        d < 10,
    ensures
        r@ == seq![digit_char(d as int)],
{
    proof {
        reveal_strlit("0");
        reveal_strlit("1");
        reveal_strlit("2");
        reveal_strlit("3");
        reveal_strlit("4");
        reveal_strlit("5");
        reveal_strlit("6");
        reveal_strlit("7");
        reveal_strlit("8");
        reveal_strlit("9");
    }
    if d == 0 {
        "0"
    } else if d == 1 {
        "1"
    } else if d == 2 {
        "2"
    } else if d == 3 {
        "3"
    } else if d == 4 {
        "4"
    } else if d == 5 {
        "5"
    } else if d == 6 {
        "6"
    } else if d == 7 {
        "7"
    } else if d == 8 {
        "8"
    } else {
        assert(seq!['9'] =~= "9"@);
        "9"
    }
}

fn write_digits(out: &mut String, n: u64)
    ensures
        final(out)@ == old(out)@ + digits(n as nat),
    decreases n,
{
    if n >= 10 {
        write_digits(out, n / 10);
    }
    out.append(digit_text(n % 10));
    assert(final(out)@ =~= old(out)@ + digits(n as nat));
}

/// Appends the decimal text of `n`.
pub fn write_decimal(out: &mut String, n: i64)
    ensures
        final(out)@ == old(out)@ + decimal(n as int),
{
    if n < 0 {
        out.append("-");
        proof {
            reveal_strlit("-");
        }
        let m: u64 = if n == i64::MIN {
            9223372036854775808u64
        } else {
            (-n) as u64
        };
        write_digits(out, m);
        assert(final(out)@ =~= old(out)@ + decimal(n as int));
    } else {
        write_digits(out, n as u64);
    }
}

/// The decimal text of `n`.
pub fn decimal_text(n: i64) -> (r: String)
    ensures
        r@ == decimal(n as int),
{
    let mut out = String::new();
    write_decimal(&mut out, n);
    assert(out@ =~= decimal(n as int));
    out
}


proof fn lemma_encode_items_push(s: Seq<JsonModel>, v: JsonModel)
    ensures
        encode_items(s.push(v)) == if s.len() == 0 {
            encode(v)
        } else {
            encode_items(s) + ","@ + encode(v)
        },
{
    assert(s.push(v).subrange(0, s.len() as int) =~= s);
}

proof fn lemma_encode_entries_push(s: Seq<(Seq<char>, JsonModel)>, e: (Seq<char>, JsonModel))
    ensures
        encode_entries(s.push(e)) == if s.len() == 0 {
            json_quoted(e.0) + ":"@ + encode(e.1)
        } else {
            encode_entries(s) + ","@ + json_quoted(e.0) + ":"@ + encode(e.1)
        },
{
    assert(s.push(e).subrange(0, s.len() as int) =~= s);
}

impl Json {
    /// Appends the compact JSON text of this value.
    pub fn write_to(&self, out: &mut String)
        ensures
            final(out)@ == old(out)@ + encode(self@),
        decreases self,
    {
        match self {
            Json::Null => out.append("null"),
            Json::Bool(b) => {
                if *b {
                    out.append("true")
                } else {
                    out.append("false")
                }
            },
            Json::Int(n) => write_decimal(out, *n),
            Json::Number(t) => out.append(t.as_str()),
            Json::Str(t) => {
                let q = quote(t.as_str());
                out.append(q.as_str());
            },
            Json::Array(items) => {
                let ghost start = out@;
                out.append("[");
                let mut i: usize = 0;
                while i < items.len()
                    invariant
                        0 <= i <= items@.len(),
                        *self == Json::Array(*items),
                        out@ == start + "["@ + encode_items(
                            items_view(items@.subrange(0, i as int)),
                        ),
                    decreases items@.len() - i,
                {
                    proof {
                        lemma_items_view_index(items@.subrange(0, i as int));
                    }
                    if i > 0 {
                        out.append(",");
                    }
                    proof {
                        vstd::std_specs::vec::axiom_vec_index_decreases(*items, i as int);
                        assert(decreases_to!(*self => self->Array_0));
                        assert(decreases_to!(*self => items@[i as int]));
                    }
                    items[i].write_to(out);
                    proof {
                        let p = items@.subrange(0, i as int);
                        assert(items@.subrange(0, i + 1) =~= p.push(items@[i as int]));
                        lemma_items_view_push(p, items@[i as int]);
                        lemma_encode_items_push(items_view(p), json_view(items@[i as int]));
                    }
                    i = i + 1;
                }
                out.append("]");
                assert(items@.subrange(0, items@.len() as int) =~= items@);
            },
            Json::Object(entries) => {
                let ghost start = out@;
                out.append("{");
                let mut i: usize = 0;
                while i < entries.len()
                    invariant
                        0 <= i <= entries@.len(),
                        *self == Json::Object(*entries),
                        out@ == start + "{"@ + encode_entries(
                            entries_view(entries@.subrange(0, i as int)),
                        ),
                    decreases entries@.len() - i,
                {
                    proof {
                        lemma_entries_view_index(entries@.subrange(0, i as int));
                    }
                    if i > 0 {
                        out.append(",");
                    }
                    let q = quote(entries[i].0.as_str());
                    out.append(q.as_str());
                    out.append(":");
                    proof {
                        vstd::std_specs::vec::axiom_vec_index_decreases(*entries, i as int);
                        assert(decreases_to!(*self => self->Object_0));
                        assert(decreases_to!(entries@[i as int] => entries@[i as int].1));
                        assert(decreases_to!(*self => entries@[i as int].1));
                    }
                    entries[i].1.write_to(out);
                    proof {
                        let p = entries@.subrange(0, i as int);
                        assert(entries@.subrange(0, i + 1) =~= p.push(entries@[i as int]));
                        lemma_entries_view_push(p, entries@[i as int]);
                        lemma_encode_entries_push(
                            entries_view(p),
                            (entries@[i as int].0@, json_view(entries@[i as int].1)),
                        );
                    }
                    i = i + 1;
                }
                out.append("}");
                assert(entries@.subrange(0, entries@.len() as int) =~= entries@);
            },
        }
    }

    /// The compact JSON text of this value.
    pub fn to_text(&self) -> (r: String)
        ensures
            r@ == encode(self@),
    {
        let mut out = String::new();
        self.write_to(&mut out);
        assert(out@ =~= encode(self@));
        out
    }
}


/// The value of the first member named `key`, if any.
pub open spec fn lookup(es: Seq<(Seq<char>, JsonModel)>, key: Seq<char>) -> Option<JsonModel>
    decreases es.len(),
{
    if es.len() == 0 {
        None
    } else if es[0].0 == key {
        Some(es[0].1)
    } else {
        lookup(es.subrange(1, es.len() as int), key)
    }
}

impl JsonModel {
    /// The member `key` of an object; `None` for a missing member or a value
    /// that is not an object.
    pub open spec fn field(self, key: Seq<char>) -> Option<JsonModel> {
        match self {
            JsonModel::Object(es) => lookup(es, key),
            _ => None,
        }
    }

    /// The element at `i` of an array; `None` out of range or for a value
    /// that is not an array.
    pub open spec fn at(self, i: int) -> Option<JsonModel> {
        match self {
            JsonModel::Array(s) => if 0 <= i < s.len() {
                Some(s[i])
            } else {
                None
            },
            _ => None,
        }
    }

    pub open spec fn as_int(self) -> Option<int> {
        match self {
            JsonModel::Int(n) => Some(n),
            _ => None,
        }
    }

    pub open spec fn as_text(self) -> Option<Seq<char>> {
        match self {
            JsonModel::Str(t) => Some(t),
            _ => None,
        }
    }

    /// `field` through an optional value.
    pub open spec fn opt_field(v: Option<JsonModel>, key: Seq<char>) -> Option<JsonModel> {
        match v {
            Some(x) => x.field(key),
            None => None,
        }
    }

    /// `at` through an optional value.
    pub open spec fn opt_at(v: Option<JsonModel>, i: int) -> Option<JsonModel> {
        match v {
            Some(x) => x.at(i),
            None => None,
        }
    }
}

/// The first member named `key` decides `lookup`; with none, it is `None`.
pub proof fn lemma_lookup_first(es: Seq<(Seq<char>, JsonModel)>, key: Seq<char>, i: int)
    requires
        0 <= i <= es.len(),
        forall|j: int| 0 <= j < i ==> es[j].0 != key,
    ensures
        i < es.len() && es[i].0 == key ==> lookup(es, key) == Some(es[i].1),
        i == es.len() ==> lookup(es, key) is None,
    decreases i,
{
    if i > 0 {
        let t = es.subrange(1, es.len() as int);
        assert forall|j: int| 0 <= j < i - 1 implies t[j].0 != key by {
            assert(t[j] == es[j + 1]);
        }
        lemma_lookup_first(t, key, i - 1);
        if i < es.len() {
            assert(t[i - 1] == es[i]);
        }
    }
}

/// Appends a member to the members of an object under construction.
pub fn push_entry(entries: &mut Vec<(String, Json)>, key: &str, value: Json)
    ensures
        entries_view(final(entries)@) == entries_view(old(entries)@).push((key@, value@)),
{
    let k = String::from_str(key);
    proof {
        lemma_entries_view_push(old(entries)@, (k, value));
    }
    entries.push((k, value));
}

/// Appends an element to the elements of an array under construction.
pub fn push_item(items: &mut Vec<Json>, value: Json)
    ensures
        items_view(final(items)@) == items_view(old(items)@).push(value@),
{
    proof {
        lemma_items_view_push(old(items)@, value);
    }
    items.push(value);
}

impl Json {
    /// The member `key` of an object.
    pub fn get(&self, key: &str) -> (r: Option<&Json>)
        ensures
            r matches Some(v) ==> self@.field(key@) == Some(v@),
            r is None ==> self@.field(key@) is None,
    {
        match self {
            Json::Object(entries) => {
                let k = String::from_str(key);
                proof {
                    lemma_entries_view_index(entries@);
                }
                let mut i: usize = 0;
                while i < entries.len()
                    invariant
                        0 <= i <= entries@.len(),
                        *self == Json::Object(*entries),
                        k@ == key@,
                        entries_view(entries@).len() == entries@.len(),
                        forall|j: int|
                            0 <= j < entries@.len() ==> #[trigger] entries_view(entries@)[j] == (
                                entries@[j].0@,
                                json_view(entries@[j].1),
                            ),
                        forall|j: int| 0 <= j < i ==> entries_view(entries@)[j].0 != key@,
                    decreases entries@.len() - i,
                {
                    if entries[i].0 == k {
                        proof {
                            lemma_lookup_first(entries_view(entries@), key@, i as int);
                        }
                        return Some(&entries[i].1);
                    }
                    i = i + 1;
                }
                proof {
                    lemma_lookup_first(entries_view(entries@), key@, i as int);
                }
                None
            },
            _ => None,
        }
    }

    /// The element at `i` of an array.
    pub fn at(&self, i: usize) -> (r: Option<&Json>)
        ensures
            r matches Some(v) ==> self@.at(i as int) == Some(v@),
            r is None ==> self@.at(i as int) is None,
    {
        match self {
            Json::Array(items) => {
                proof {
                    lemma_items_view_index(items@);
                }
                if i < items.len() {
                    Some(&items[i])
                } else {
                    None
                }
            },
            _ => None,
        }
    }

    /// The value of an integer that fits an `i64`.
    pub fn as_i64(&self) -> (r: Option<i64>)
        ensures
            r matches Some(n) ==> self@.as_int() == Some(n as int),
            r is None ==> self@.as_int() is None,
    {
        match self {
            Json::Int(n) => Some(*n),
            _ => None,
        }
    }

    /// The text of a string.
    pub fn as_str(&self) -> (r: Option<&str>)
        ensures
            r matches Some(t) ==> self@.as_text() == Some(t@),
            r is None ==> self@.as_text() is None,
    {
        match self {
            Json::Str(t) => Some(t.as_str()),
            _ => None,
        }
    }

    /// Whether this value is an object.
    pub fn is_object(&self) -> (r: bool)
        ensures
            r == self@ is Object,
    {
        match self {
            Json::Object(_) => true,
            _ => false,
        }
    }

    /// Whether this value is an array.
    pub fn is_array(&self) -> (r: bool)
        ensures
            r == self@ is Array,
    {
        match self {
            Json::Array(_) => true,
            _ => false,
        }
    }

    /// A value equal to this one.
    pub fn copy(&self) -> (r: Json)
        ensures
            r@ == self@,
        decreases self,
    {
        match self {
            Json::Null => Json::Null,
            Json::Bool(b) => Json::Bool(*b),
            Json::Int(n) => Json::Int(*n),
            Json::Number(t) => Json::Number(t.clone()),
            Json::Str(t) => Json::Str(t.clone()),
            Json::Array(items) => {
                let mut out: Vec<Json> = Vec::new();
                let mut i: usize = 0;
                while i < items.len()
                    invariant
                        0 <= i <= items@.len(),
                        *self == Json::Array(*items),
                        items_view(out@) == items_view(items@.subrange(0, i as int)),
                    decreases items@.len() - i,
                {
                    proof {
                        vstd::std_specs::vec::axiom_vec_index_decreases(*items, i as int);
                        assert(decreases_to!(*self => self->Array_0));
                    }
                    let c = items[i].copy();
                    push_item(&mut out, c);
                    proof {
                        let p = items@.subrange(0, i as int);
                        assert(items@.subrange(0, i + 1) =~= p.push(items@[i as int]));
                        lemma_items_view_push(p, items@[i as int]);
                    }
                    i = i + 1;
                }
                assert(items@.subrange(0, items@.len() as int) =~= items@);
                Json::Array(out)
            },
            Json::Object(entries) => {
                let mut out: Vec<(String, Json)> = Vec::new();
                let mut i: usize = 0;
                while i < entries.len()
                    invariant
                        0 <= i <= entries@.len(),
                        *self == Json::Object(*entries),
                        entries_view(out@) == entries_view(entries@.subrange(0, i as int)),
                    decreases entries@.len() - i,
                {
                    proof {
                        vstd::std_specs::vec::axiom_vec_index_decreases(*entries, i as int);
                        assert(decreases_to!(*self => self->Object_0));
                        assert(decreases_to!(entries@[i as int] => entries@[i as int].1));
                    }
                    let c = entries[i].1.copy();
                    push_entry(&mut out, entries[i].0.as_str(), c);
                    proof {
                        let p = entries@.subrange(0, i as int);
                        assert(entries@.subrange(0, i + 1) =~= p.push(entries@[i as int]));
                        lemma_entries_view_push(p, entries@[i as int]);
                    }
                    i = i + 1;
                }
                assert(entries@.subrange(0, entries@.len() as int) =~= entries@);
                Json::Object(out)
            },
        }
    }
}


proof fn lemma_digits_shape(n: nat)
    ensures
        digits(n).len() >= 1,
        n >= 10 ==> digits(n).len() >= 2,
        forall|i: int| 0 <= i < digits(n).len() ==> #[trigger] digits(n)[i] != '-',
    decreases n,
{
    if n >= 10 {
        lemma_digits_shape(n / 10);
        let p = digits(n / 10);
        assert forall|i: int| 0 <= i < digits(n).len() implies #[trigger] digits(n)[i] != '-' by {
            if i < p.len() {
                assert(digits(n)[i] == p[i]);
            }
        }
    }
}

proof fn lemma_digits_injective(a: nat, b: nat)
    requires
        digits(a) == digits(b),
    ensures
        a == b,
    decreases a,
{
    lemma_digits_shape(a);
    lemma_digits_shape(b);
    if a >= 10 && b >= 10 {
        let da = digits(a);
        assert(da.last() == digit_char((a % 10) as int));
        assert(digits(b).last() == digit_char((b % 10) as int));
        assert(da.drop_last() =~= digits(a / 10));
        assert(digits(b).drop_last() =~= digits(b / 10));
        lemma_digits_injective(a / 10, b / 10);
        assert(a == 10 * (a / 10) + a % 10);
        assert(b == 10 * (b / 10) + b % 10);
    } else if a < 10 && b < 10 {
        assert(digits(a)[0] == digit_char(a as int));
        assert(digits(b)[0] == digit_char(b as int));
    }
}

/// Distinct integers have distinct decimal texts.
pub proof fn lemma_decimal_injective(a: int, b: int)
    requires
        decimal(a) == decimal(b),
    ensures
        a == b,
{
    if a < 0 && b < 0 {
        assert(decimal(a).subrange(1, decimal(a).len() as int) =~= digits((-a) as nat));
        assert(decimal(b).subrange(1, decimal(b).len() as int) =~= digits((-b) as nat));
        lemma_digits_injective((-a) as nat, (-b) as nat);
    } else if a >= 0 && b >= 0 {
        lemma_digits_injective(a as nat, b as nat);
    } else if a < 0 {
        lemma_digits_shape(b as nat);
        assert(decimal(a)[0] == '-');
    } else {
        lemma_digits_shape(a as nat);
        assert(decimal(b)[0] == '-');
    }
}


/// Two member lists with the same names in the same places, and the same
/// values under `key`, agree on `key`.
pub proof fn lemma_lookup_agree(
    s: Seq<(Seq<char>, JsonModel)>,
    t: Seq<(Seq<char>, JsonModel)>,
    key: Seq<char>,
)
    requires
        s.len() == t.len(),
        forall|i: int| 0 <= i < s.len() ==> #[trigger] s[i].0 == t[i].0,
        forall|i: int| 0 <= i < s.len() && #[trigger] s[i].0 == key ==> s[i].1 == t[i].1,
    ensures
        lookup(s, key) == lookup(t, key),
    decreases s.len(),
{
    if s.len() > 0 && s[0].0 != key {
        let s1 = s.subrange(1, s.len() as int);
        let t1 = t.subrange(1, t.len() as int);
        assert forall|i: int| 0 <= i < s1.len() implies #[trigger] s1[i].0 == t1[i].0 by {
            assert(s[i + 1].0 == t[i + 1].0);
        }
        assert forall|i: int| 0 <= i < s1.len() && #[trigger] s1[i].0 == key implies s1[i].1
            == t1[i].1 by {
            assert(s[i + 1].0 == key);
        }
        lemma_lookup_agree(s1, t1, key);
    }
}

/// A member added at the end does not change the lookup of another name.
pub proof fn lemma_lookup_push(s: Seq<(Seq<char>, JsonModel)>, e: (Seq<char>, JsonModel), key: Seq<char>)
    requires
        e.0 != key,
    ensures
        lookup(s.push(e), key) == lookup(s, key),
    decreases s.len(),
{
    let p = s.push(e);
    if s.len() > 0 {
        assert(p[0] == s[0]);
        if s[0].0 != key {
            let rest = s.subrange(1, s.len() as int);
            assert(p.subrange(1, p.len() as int) =~= rest.push(e));
            lemma_lookup_push(rest, e, key);
            assert(lookup(p, key) == lookup(p.subrange(1, p.len() as int), key));
            assert(lookup(s, key) == lookup(rest, key));
        }
    } else {
        assert(p[0] == e);
        assert(p.subrange(1, p.len() as int) =~= Seq::<(Seq<char>, JsonModel)>::empty());
        assert(lookup(p, key) == lookup(p.subrange(1, p.len() as int), key));
        assert(lookup(Seq::<(Seq<char>, JsonModel)>::empty(), key) is None);
    }
}

} // verus!
