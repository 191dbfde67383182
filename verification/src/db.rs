//! The store: persisted person rows, the flat status signals store
//! operations report, and the primitive queries the handlers need.

use vstd::prelude::*;

verus! {

/// The flat status signals that store operations and handlers report.
#[derive(Clone, Copy, Debug, PartialEq, Eq, Structural)]
pub enum Status {
    /// The requested email has no matching record.
    NotFound,
    /// The candidate email or name is already taken.
    Conflict,
    /// A store read or write failed for any other reason.
    InternalServerError,
}

/// A person row as persisted: the mandates still as the serialized text blob.
#[derive(Debug)]
pub struct Person {
    pub id: i32,
    pub name: String,
    pub email: String,
    pub mandates: String,
}

/// The mathematical model of one persisted row.
#[verifier::ext_equal]
pub struct PersonModel {
    pub id: int,
    pub name: Seq<char>,
    pub email: Seq<char>,
    pub mandates: Seq<char>,
}

impl View for Person {
    type V = PersonModel;

    open spec fn view(&self) -> PersonModel {
        PersonModel {
            id: self.id as int,
            name: self.name@,
            email: self.email@,
            mandates: self.mandates@,
        }
    }
}

impl Clone for Person {
    fn clone(&self) -> (r: Self)
        ensures
            r@ == self@,
    {
        Person {
            id: self.id,
            name: self.name.clone(),
            email: self.email.clone(),
            mandates: self.mandates.clone(),
        }
    }
}

/// The column values of a row about to be inserted; the store assigns the id.
#[derive(Debug)]
pub struct NewPerson {
    pub name: String,
    pub email: String,
    pub mandates: String,
}

/// The models of a sequence of rows, in the same order.
pub open spec fn rows_model(rows: Seq<Person>) -> Seq<PersonModel> {
    rows.map_values(|p: Person| p@)
}

/// Whether some row carries exactly this email.
pub open spec fn has_email(rows: Seq<PersonModel>, email: Seq<char>) -> bool {
    exists|i: int| 0 <= i < rows.len() && rows[i].email == email
}

/// Whether some row carries exactly this name.
pub open spec fn has_name(rows: Seq<PersonModel>, name: Seq<char>) -> bool {
    exists|i: int| 0 <= i < rows.len() && rows[i].name == name
}

/// An index of a row carrying this email, when one exists.
pub open spec fn email_index(rows: Seq<PersonModel>, email: Seq<char>) -> int {
    choose|i: int| 0 <= i < rows.len() && rows[i].email == email
}

/// The row carrying this email, when one exists; with unique emails it is
/// the only one.
pub open spec fn row_with_email(rows: Seq<PersonModel>, email: Seq<char>) -> PersonModel {
    rows[email_index(rows, email)]
}

/// No two rows share an email.
pub open spec fn emails_unique(rows: Seq<PersonModel>) -> bool {
    forall|i: int, j: int|
        0 <= i < j < rows.len() ==> rows[i].email != rows[j].email
}

/// With unique emails, any row that matches an email is the row the model
/// functions single out.
pub proof fn lemma_email_unique(rows: Seq<PersonModel>, email: Seq<char>, i: int)
    requires
        emails_unique(rows),
        0 <= i < rows.len(),
        rows[i].email == email,
    ensures
        email_index(rows, email) == i,
        row_with_email(rows, email) == rows[i],
{
    let j = email_index(rows, email);
    assert(0 <= j < rows.len() && rows[j].email == email);
}

/// The backing store: person rows in insertion order behind one handle.
pub struct Store {
    rows: Vec<Person>,
}

impl View for Store {
    type V = Seq<PersonModel>;

    closed spec fn view(&self) -> Seq<PersonModel> {
        rows_model(self.rows@)
    }
}

impl Store {
    /// Well-formedness: ids run 1, 2, ... in insertion order (assigned by
    /// the store, never reused), and no two rows share an email.
    pub open spec fn wf(&self) -> bool {
        &&& forall|i: int| 0 <= i < self@.len() ==> #[trigger] self@[i].id == i + 1
        &&& emails_unique(self@)
    }

    /// An empty store.
    pub fn new() -> (r: Store)
        ensures
            r.wf(),
            r@ == Seq::<PersonModel>::empty(),
    {
        let r = Store { rows: Vec::new() };
        proof {
            assert(r@ =~= Seq::<PersonModel>::empty());
        }
        r
    }

    /// How many rows the store holds.
    pub fn len(&self) -> (n: usize)
        ensures
            n == self@.len(),
    {
        self.rows.len()
    }
}

/// True iff a record with that email is present.
pub fn email_exists(email_to_check: &str, store: &Store) -> (r: bool)
    ensures
        r == has_email(store@, email_to_check@),
{
    let needle: String = email_to_check.to_owned();
    let n = store.rows.len();
    let mut i: usize = 0;
    while i < n
        invariant
            n == store.rows.len(),
            i <= n,
            needle@ == email_to_check@,
            forall|k: int| 0 <= k < i ==> store@[k].email != email_to_check@,
        decreases n - i,
    {
        if store.rows[i].email == needle {
            proof {
                assert(store@[i as int].email == email_to_check@);
            }
            return true;
        }
        i += 1;
    }
    false
}

/// True iff a record with that name is present.
pub fn name_exists(name_to_check: &str, store: &Store) -> (r: bool)
    ensures
        r == has_name(store@, name_to_check@),
{
    let needle: String = name_to_check.to_owned();
    let n = store.rows.len();
    let mut i: usize = 0;
    while i < n
        invariant
            n == store.rows.len(),
            i <= n,
            needle@ == name_to_check@,
            forall|k: int| 0 <= k < i ==> store@[k].name != name_to_check@,
        decreases n - i,
    {
        if store.rows[i].name == needle {
            proof {
                assert(store@[i as int].name == name_to_check@);
            }
            return true;
        }
        i += 1;
    }
    false
}

/// Append a new record with a store-assigned id. The store itself enforces
/// only email uniqueness (the table's one constraint); a clash surfaces as
/// an internal error, not a distinct conflict signal. Names may repeat at
/// this level.
pub fn insert_person(
    person_name: String,
    person_email: String,
    person_mandates: String,
    store: &mut Store,
) -> (r: Result<(), Status>)
    requires
        old(store).wf(),
        old(store)@.len() < i32::MAX,
    ensures
        final(store).wf(),
        has_email(old(store)@, person_email@) ==> {
            &&& r == Err::<(), Status>(Status::InternalServerError)
            &&& final(store)@ == old(store)@
        },
        !has_email(old(store)@, person_email@) ==> {
            &&& r == Ok::<(), Status>(())
            &&& final(store)@ == old(store)@.push(
                PersonModel {
                    id: old(store)@.len() as int + 1,
                    name: person_name@,
                    email: person_email@,
                    mandates: person_mandates@,
                },
            )
        },
{
    if email_exists(person_email.as_str(), store) {
        return Err(Status::InternalServerError);
    }
    let new_person = NewPerson {
        name: person_name,
        email: person_email,
        mandates: person_mandates,
    };
    let id: i32 = (store.rows.len() as i32) + 1;
    let row = Person {
        id,
        name: new_person.name,
        email: new_person.email,
        mandates: new_person.mandates,
    };
    store.rows.push(row);
    proof {
        assert(store@ =~= old(store)@.push(store@[store@.len() - 1]));
    }
    Ok(())
}

/// Every record, in the store's insertion order. The in-process store
/// cannot fail a read, so this always succeeds.
pub fn elus(store: &Store) -> (r: Result<Vec<Person>, Status>)
    ensures
        r matches Ok(v) && rows_model(v@) == store@,
{
    let n = store.rows.len();
    let mut out: Vec<Person> = Vec::new();
    let mut i: usize = 0;
    while i < n
        invariant
            n == store.rows.len(),
            i <= n,
            out@.len() == i,
            forall|k: int| 0 <= k < i ==> #[trigger] out@[k]@ == store@[k],
        decreases n - i,
    {
        out.push(store.rows[i].clone());
        i += 1;
    }
    proof {
        assert(rows_model(out@) =~= store@);
    }
    Ok(out)
}

/// The unique record whose email matches exactly (a case-sensitive match),
/// or a not-found signal if none does.
pub fn get_elu_by_email(email_to_find: &str, store: &Store) -> (r: Result<Person, Status>)
    requires
        store.wf(),
    ensures
        match r {
            Ok(p) => has_email(store@, email_to_find@) && p@ == row_with_email(
                store@,
                email_to_find@,
            ),
            Err(e) => e == Status::NotFound && !has_email(store@, email_to_find@),
        },
{
    let needle: String = email_to_find.to_owned();
    let n = store.rows.len();
    let mut i: usize = 0;
    while i < n
        invariant
            store.wf(),
            n == store.rows.len(),
            i <= n,
            needle@ == email_to_find@,
            forall|k: int| 0 <= k < i ==> store@[k].email != email_to_find@,
        decreases n - i,
    {
        if store.rows[i].email == needle {
            proof {
                assert(store@[i as int].email == email_to_find@);
                lemma_email_unique(store@, email_to_find@, i as int);
            }
            return Ok(store.rows[i].clone());
        }
        i += 1;
    }
    Err(Status::NotFound)
}

} // verus!
