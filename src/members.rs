use vstd::prelude::*;
use crate::format_error::Field;
use crate::json::Json;

verus! {

/// The value of the first member of `m` whose key is `k`, if any.
pub open spec fn member(m: Seq<(String, Json)>, k: Seq<char>) -> Option<Json>
    decreases m.len(),
{
    if m.len() == 0 {
        None
    } else if m[0].0@ == k {
        Some(m[0].1)
    } else {
        member(m.drop_first(), k)
    }
}

/// The first member whose key is `k` is member `i`.
pub proof fn lemma_member_at(m: Seq<(String, Json)>, i: int, k: Seq<char>)
    requires
        0 <= i < m.len(),
        m[i].0@ == k,
        forall|j: int| 0 <= j < i ==> m[j].0@ != k,
    ensures
        member(m, k) == Some(m[i].1),
    decreases i,
{
    if i > 0 {
        lemma_member_at(m.drop_first(), i - 1, k);
    }
}

/// No member has the key `k`.
pub proof fn lemma_member_absent(m: Seq<(String, Json)>, k: Seq<char>)
    requires
        forall|j: int| 0 <= j < m.len() ==> m[j].0@ != k,
    ensures
        member(m, k) == None::<Json>,
    decreases m.len(),
{
    if m.len() > 0 {
        lemma_member_absent(m.drop_first(), k);
    }
}

/// No two members of a message share a key.
pub proof fn lemma_keys_distinct()
    ensures
        forall|f: Field, g: Field| #[trigger] f.spec_key() == #[trigger] g.spec_key() ==> f == g,
{
    reveal_strlit("jsonrpc");
    reveal_strlit("method");
    reveal_strlit("params");
    reveal_strlit("id");
    reveal_strlit("result");
    reveal_strlit("error");
    reveal_strlit("code");
    reveal_strlit("message");
    reveal_strlit("data");
    assert forall|f: Field, g: Field| #[trigger] f.spec_key() == #[trigger] g.spec_key() implies f
        == g by {
        if f != g {
            let a = f.spec_key();
            let b = g.spec_key();
            if a.len() == b.len() {
                assert(a[0] != b[0] || a[1] != b[1]);
            }
        }
    }
}

/// The field whose key is `k`, if any.
fn field_of_key(k: &String) -> (r: Option<Field>)
    ensures
        match r {
            Some(f) => f.spec_key() == k@,
            None => forall|f: Field| #[trigger] f.spec_key() != k@,
        },
{
    if *k == "jsonrpc".to_owned() {
        Some(Field::Jsonrpc)
    } else if *k == "method".to_owned() {
        Some(Field::Method)
    } else if *k == "params".to_owned() {
        Some(Field::Params)
    } else if *k == "id".to_owned() {
        Some(Field::Id)
    } else if *k == "result".to_owned() {
        Some(Field::Result)
    } else if *k == "error".to_owned() {
        Some(Field::Error)
    } else if *k == "code".to_owned() {
        Some(Field::Code)
    } else if *k == "message".to_owned() {
        Some(Field::Message)
    } else if *k == "data".to_owned() {
        Some(Field::Data)
    } else {
        None
    }
}

/// The members of an object that a message reads, one slot per field.
pub struct Members {
    pub jsonrpc: Option<Json>,
    pub method: Option<Json>,
    pub params: Option<Json>,
    pub id: Option<Json>,
    pub result: Option<Json>,
    pub error: Option<Json>,
    pub code: Option<Json>,
    pub message: Option<Json>,
    pub data: Option<Json>,
}

impl Members {
    pub open spec fn slot(self, f: Field) -> Option<Json> {
        match f {
            Field::Jsonrpc => self.jsonrpc,
            Field::Method => self.method,
            Field::Params => self.params,
            Field::Id => self.id,
            Field::Result => self.result,
            Field::Error => self.error,
            Field::Code => self.code,
            Field::Message => self.message,
            Field::Data => self.data,
        }
    }

    /// Each field of the struct is the slot of its field.
    pub proof fn lemma_slots(self)
        ensures
            self.jsonrpc == self.slot(Field::Jsonrpc),
            self.method == self.slot(Field::Method),
            self.params == self.slot(Field::Params),
            self.id == self.slot(Field::Id),
            self.result == self.slot(Field::Result),
            self.error == self.slot(Field::Error),
            self.code == self.slot(Field::Code),
            self.message == self.slot(Field::Message),
            self.data == self.slot(Field::Data),
    {
    }

    fn put(&mut self, f: Field, v: Json)
        ensures
            final(self).slot(f) == Some(v),
            forall|g: Field| g != f ==> #[trigger] final(self).slot(g) == old(self).slot(g),
    {
        match f {
            Field::Jsonrpc => self.jsonrpc = Some(v),
            Field::Method => self.method = Some(v),
            Field::Params => self.params = Some(v),
            Field::Id => self.id = Some(v),
            Field::Result => self.result = Some(v),
            Field::Error => self.error = Some(v),
            Field::Code => self.code = Some(v),
            Field::Message => self.message = Some(v),
            Field::Data => self.data = Some(v),
        }
    }
}

/// Split the members of an object into the slots of the fields that a message
/// reads; where a key occurs twice the first occurrence counts, and members
/// with other keys are dropped.
pub fn take_members(m: Vec<(String, Json)>) -> (r: Members)
    ensures
        forall|f: Field| #[trigger] r.slot(f) == member(m@, f.spec_key()),
{
    let ghost orig = m@;
    let mut rest = m;
    let mut r = Members {
        jsonrpc: None,
        method: None,
        params: None,
        id: None,
        result: None,
        error: None,
        code: None,
        message: None,
        data: None,
    };
    proof {
        lemma_keys_distinct();
    }
    while rest.len() > 0
        invariant
            rest@ == orig.subrange(0, rest@.len() as int),
            rest@.len() <= orig.len(),
            forall|f: Field|
                #[trigger] r.slot(f) == member(orig.subrange(rest@.len() as int, orig.len() as int), f.spec_key()),
            forall|f: Field, g: Field| #[trigger] f.spec_key() == #[trigger] g.spec_key() ==> f == g,
        decreases rest.len(),
    {
        let ghost i = rest@.len() - 1;
        let ghost before = r;
        let (k, v) = rest.pop().unwrap();
        let ghost tail = orig.subrange(i, orig.len() as int);
        assert(tail.drop_first() =~= orig.subrange(i + 1, orig.len() as int));
        assert(tail[0] == orig[i]);
        match field_of_key(&k) {
            Some(f) => {
                r.put(f, v);
                assert forall|g: Field| #[trigger] r.slot(g) == member(tail, g.spec_key()) by {
                    if g != f {
                        assert(g.spec_key() != f.spec_key());
                    }
                }
            },
            None => {},
        }
    }
    assert(orig.subrange(0, orig.len() as int) =~= orig);
    r
}

} // verus!
