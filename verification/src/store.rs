//! Question records and the catalogue that holds them.

use vstd::prelude::*;
use vstd::string::*;

verus! {

/// The identifier of a question: a text that is never empty.
#[derive(Debug, PartialEq, Eq, Hash)]
pub struct QuestionId(String);

impl View for QuestionId {
    type V = Seq<char>;

    closed spec fn view(&self) -> Seq<char> {
        self.0@
    }
}

impl QuestionId {
    #[verifier::type_invariant]
    spec fn not_empty(&self) -> bool {
        self.0@.len() > 0
    }

    /// Makes an identifier of `text`, unless `text` is empty.
    pub fn new(text: String) -> (r: Option<QuestionId>)
        ensures
            r is Some <==> text@.len() > 0,
            r is Some ==> r->0@ == text@,
    {
        if text.as_str().is_empty() {
            None
        } else {
            Some(QuestionId(text))
        }
    }

    /// The identifier's text.
    pub fn as_str(&self) -> (r: &str)
        ensures
            r@ == self@,
            r@.len() > 0,
    {
        proof {
            use_type_invariant(self);
        }
        self.0.as_str()
    }

    /// Whether two identifiers have the same text.
    pub fn same(&self, other: &QuestionId) -> (r: bool)
        ensures
            r == (self@ == other@),
    {
        self.0 == other.0
    }
}

impl Clone for QuestionId {
    fn clone(&self) -> (r: Self)
        ensures
            r@ == self@,
    {
        proof {
            use_type_invariant(self);
        }
        QuestionId(self.0.clone())
    }
}

/// A question. Two records with the same `id` are the same question.
#[derive(Debug, Clone)]
pub struct Question {
    pub id: QuestionId,
    pub title: String,
    pub content: String,
    pub tags: Option<Vec<String>>,
}

/// Whether no two records of `records` have the same identifier.
pub open spec fn distinct_ids(records: Seq<Question>) -> bool {
    forall|i: int, j: int|
        0 <= i < j < records.len() ==> (#[trigger] records[i]).id@ != (#[trigger] records[j]).id@
}

/// Whether a record of `records` before position `end` has the identifier
/// `id`.
pub open spec fn id_among(records: Seq<Question>, end: int, id: Seq<char>) -> bool {
    exists|i: int| 0 <= i < end && i < records.len() && (#[trigger] records[i]).id@ == id
}

/// The catalogue: the records it was made of, in that order, of which no two
/// have the same identifier. Nothing changes it once it is made.
#[derive(Debug)]
pub struct Store {
    questions: Vec<Question>,
}

impl View for Store {
    type V = Seq<Question>;

    closed spec fn view(&self) -> Seq<Question> {
        self.questions@
    }
}

/// Whether a record of `records` before position `end` has the identifier
/// of `id`.
fn has_id_before(records: &Vec<Question>, end: usize, id: &QuestionId) -> (r: bool)
    requires
        end <= records@.len(),
    ensures
        r == id_among(records@, end as int, id@),
{
    let mut i: usize = 0;
    while i < end
        invariant
            i <= end <= records@.len(),
            !id_among(records@, i as int, id@),
        decreases end - i,
    {
        if records[i].id.same(id) {
            return true;
        }
        i += 1;
    }
    false
}

impl Store {
    #[verifier::type_invariant]
    spec fn keys_unique(&self) -> bool {
        distinct_ids(self.questions@)
    }

    /// Makes the catalogue of `records`, unless two of them have the same
    /// identifier.
    pub fn new(records: Vec<Question>) -> (r: Option<Store>)
        ensures
            r is Some <==> distinct_ids(records@),
            r is Some ==> r->0@ == records@,
    {
        let mut j: usize = 0;
        while j < records.len()
            invariant
                j <= records@.len(),
                distinct_ids(records@.subrange(0, j as int)),
            decreases records@.len() - j,
        {
            if has_id_before(&records, j, &records[j].id) {
                return None;
            }
            proof {
                let shorter = records@.subrange(0, j as int);
                let longer = records@.subrange(0, j as int + 1);
                assert forall|a: int, b: int| 0 <= a < b < longer.len() implies (
                #[trigger] longer[a]).id@ != (#[trigger] longer[b]).id@ by {
                    if b < j {
                        assert(shorter[a] == longer[a] && shorter[b] == longer[b]);
                    } else {
                        assert(longer[a] == records@[a]);
                    }
                }
            }
            j += 1;
        }
        assert(records@.subrange(0, j as int) =~= records@);
        Some(Store { questions: records })
    }

    /// All records, in the order in which the catalogue was made.
    pub fn all_questions(&self) -> (r: &[Question])
        ensures
            r@ == self@,
            distinct_ids(r@),
    {
        proof {
            use_type_invariant(self);
        }
        self.questions.as_slice()
    }

    /// The number of records.
    pub fn len(&self) -> (r: usize)
        ensures
            r == self@.len(),
    {
        self.questions.len()
    }
}

} // verus!
