//! The request handlers: the external person representation (mandates as a
//! structured list), the persisted-to-external mapping, and the list, find
//! and create operations the routes expose. Creation is reachable from two
//! external entry points that are aliases of one orchestration function.

use vstd::prelude::*;

use crate::db;
use crate::db::{
    email_exists, emails_unique, get_elu_by_email, has_email, has_name, insert_person,
    lemma_email_unique, name_exists, row_with_email, rows_model, Person, PersonModel, Status,
    Store,
};
use crate::mandates::{blob_from_mandates, decoded_or_empty, mandates_blob_of, mandates_from_blob};

verus! {

/// The external representation of a person: the mandates as an ordered
/// list of role strings rather than the persisted text blob.
#[derive(Debug)]
pub struct PersonData {
    pub name: String,
    pub email: String,
    pub mandates: Vec<String>,
}

/// The mathematical model of the external representation.
#[verifier::ext_equal]
pub struct PersonDataModel {
    pub name: Seq<char>,
    pub email: Seq<char>,
    pub mandates: Seq<Seq<char>>,
}

impl View for PersonData {
    type V = PersonDataModel;

    open spec fn view(&self) -> PersonDataModel {
        PersonDataModel {
            name: self.name@,
            email: self.email@,
            mandates: self.mandates.deep_view(),
        }
    }
}

impl Clone for PersonData {
    fn clone(&self) -> (r: Self)
        ensures
            r@ == self@,
    {
        let mut mandates: Vec<String> = Vec::new();
        let n = self.mandates.len();
        let mut i: usize = 0;
        while i < n
            invariant
                n == self.mandates.len(),
                i <= n,
                mandates@.len() == i,
                forall|k: int| 0 <= k < i ==> #[trigger] mandates@[k]@ == self.mandates@[k]@,
            decreases n - i,
        {
            mandates.push(self.mandates[i].clone());
            i += 1;
        }
        proof {
            assert(mandates.deep_view() =~= self.mandates.deep_view());
        }
        PersonData { name: self.name.clone(), email: self.email.clone(), mandates }
    }
}

/// How a persisted row reads in the external shape: same name and email,
/// the mandates decoded from the blob under the silent-recovery rule.
pub open spec fn model_of_row(row: PersonModel) -> PersonDataModel {
    PersonDataModel {
        name: row.name,
        email: row.email,
        mandates: decoded_or_empty(row.mandates),
    }
}

/// The external models of a sequence of rows, in order.
pub open spec fn models_of_rows(rows: Seq<PersonModel>) -> Seq<PersonDataModel> {
    rows.map_values(|r: PersonModel| model_of_row(r))
}

/// The models of a sequence of external records, in order.
pub open spec fn person_data_models(s: Seq<PersonData>) -> Seq<PersonDataModel> {
    s.map_values(|p: PersonData| p@)
}

impl PersonData {
    /// Map a persisted row to the external shape, decoding the mandates
    /// blob; a blob that does not decode becomes the empty list.
    pub fn from_person(row: Person) -> (r: PersonData)
        ensures
            r@ == model_of_row(row@),
    {
        let mandates = mandates_from_blob(row.mandates.as_str());
        PersonData { name: row.name, email: row.email, mandates }
    }
}

/// The liveness check's fixed text.
pub fn index() -> (r: &'static str)
    ensures
        r@ == "hello world"@,
{
    "hello world"
}

/// List every stored person, in insertion order, mapped to the external
/// shape (never the raw blob).
pub fn elus(store: &Store) -> (r: Vec<PersonData>)
    ensures
        person_data_models(r@) == models_of_rows(store@),
{
    let rows = db::elus(store).unwrap();
    let n = rows.len();
    let mut out: Vec<PersonData> = Vec::new();
    let mut i: usize = 0;
    while i < n
        invariant
            n == rows.len(),
            i <= n,
            rows_model(rows@) == store@,
            out@.len() == i,
            forall|k: int| 0 <= k < i ==> #[trigger] out@[k]@ == models_of_rows(store@)[k],
        decreases n - i,
    {
        out.push(PersonData::from_person(rows[i].clone()));
        i += 1;
    }
    proof {
        assert(person_data_models(out@) =~= models_of_rows(store@));
    }
    out
}

/// Find one person by exact email, in the external shape; an email never
/// inserted yields nothing.
pub fn get_person_by_email(search_email: String, store: &Store) -> (r: Option<PersonData>)
    requires
        store.wf(),
    ensures
        match r {
            Some(p) => has_email(store@, search_email@) && p@ == model_of_row(
                row_with_email(store@, search_email@),
            ),
            None => !has_email(store@, search_email@),
        },
{
    match get_elu_by_email(search_email.as_str(), store) {
        Ok(p) => Some(PersonData::from_person(p)),
        Err(_) => None,
    }
}

/// What creation guarantees, relating the store before and after to the
/// request and the result: a taken email or name is a conflict and leaves
/// the store unchanged; otherwise the record is appended with a fresh id,
/// its mandates blob decodes back to the very input list, and the created
/// record is returned with exactly the input fields.
pub open spec fn create_post(
    pre: Seq<PersonModel>,
    post: Seq<PersonModel>,
    input: PersonDataModel,
    r: Result<PersonData, Status>,
) -> bool {
    if has_email(pre, input.email) || has_name(pre, input.name) {
        &&& r == Err::<PersonData, Status>(Status::Conflict)
        &&& post == pre
    } else {
        &&& post == pre.push(
            PersonModel {
                id: pre.len() as int + 1,
                name: input.name,
                email: input.email,
                mandates: mandates_blob_of(input.mandates),
            },
        )
        &&& decoded_or_empty(mandates_blob_of(input.mandates)) == input.mandates
        &&& r matches Ok(p) && p@ == input
    }
}

/// Enforce the two uniqueness invariants, then insert and re-read: check
/// the email, check the name, encode the mandates and append the record,
/// then find the just-inserted record again and return it in the external
/// shape. The four store interactions are separate; nothing makes the
/// sequence one atomic unit.
pub fn create_person(person_data: &PersonData, store: &mut Store) -> (r: Result<
    PersonData,
    Status,
>)
    requires
        old(store).wf(),
        old(store)@.len() < i32::MAX,
    ensures
        final(store).wf(),
        create_post(old(store)@, final(store)@, person_data@, r),
{
    if email_exists(person_data.email.as_str(), store) {
        return Err(Status::Conflict);
    }
    if name_exists(person_data.name.as_str(), store) {
        return Err(Status::Conflict);
    }
    let blob = blob_from_mandates(&person_data.mandates);
    match insert_person(person_data.name.clone(), person_data.email.clone(), blob, store) {
        Ok(()) => {},
        Err(_) => {
            return Err(Status::InternalServerError);
        },
    }
    proof {
        assert(store@[store@.len() - 1].email == person_data@.email);
        lemma_email_unique(store@, person_data@.email, store@.len() - 1);
    }
    match get_elu_by_email(person_data.email.as_str(), store) {
        Ok(created) => Ok(PersonData::from_person(created)),
        Err(_) => Err(Status::InternalServerError),
    }
}

/// One of the two external entry points for creation; both are aliases of
/// the same orchestration function and promise the same contract.
pub fn create_person_new(person_data: &PersonData, store: &mut Store) -> (r: Result<
    PersonData,
    Status,
>)
    requires
        old(store).wf(),
        old(store)@.len() < i32::MAX,
    ensures
        final(store).wf(),
        create_post(old(store)@, final(store)@, person_data@, r),
{
    create_person(person_data, store)
}

/// The other external entry point for creation; an alias of the same
/// orchestration function with the same contract.
pub fn create_person_create(person_data: &PersonData, store: &mut Store) -> (r: Result<
    PersonData,
    Status,
>)
    requires
        old(store).wf(),
        old(store)@.len() < i32::MAX,
    ensures
        final(store).wf(),
        create_post(old(store)@, final(store)@, person_data@, r),
{
    create_person(person_data, store)
}

/// Law: a create request whose name and email are both previously unused
/// succeeds, and a subsequent find-by-email on that email singles out a
/// record whose external fields exactly match the input, mandates order
/// preserved.
pub proof fn lemma_create_then_find(
    pre: Seq<PersonModel>,
    post: Seq<PersonModel>,
    input: PersonDataModel,
    r: Result<PersonData, Status>,
)
    requires
        emails_unique(pre),
        !has_email(pre, input.email),
        !has_name(pre, input.name),
        create_post(pre, post, input, r),
    ensures
        r matches Ok(p) && p@ == input,
        has_email(post, input.email),
        emails_unique(post),
        model_of_row(row_with_email(post, input.email)) == input,
{
    let n = post.len() - 1;
    assert(post[n].email == input.email);
    assert forall|i: int, j: int| 0 <= i < j < post.len() implies post[i].email
        != post[j].email by {
        assert(post[i] == pre[i]);
        if j < n {
            assert(post[j] == pre[j]);
        } else {
            assert(pre[i].email != input.email);
        }
    }
    lemma_email_unique(post, input.email, n);
    assert(model_of_row(post[n]) =~= input);
}

} // verus!
