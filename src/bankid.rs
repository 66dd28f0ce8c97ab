use vstd::prelude::*;

use crate::error::AuthError;
use crate::text::text_is;
use crate::users::{get_or_create_outcome, UserDirectory};

verus! {

/// The provider's answer to creating an order.
pub struct OrderResponse {
    pub order_ref: String,
    pub auto_start_token: String,
    pub qr_start_token: String,
    pub qr_start_secret: String,
}

/// The provider's answer to collecting the status of an order.
pub struct CollectResponse {
    pub order_ref: String,
    pub status: String,
    pub completion_data: Option<CompletionData>,
}

/// What a completed order reports.
pub struct CompletionData {
    pub user: User,
}

/// The person that a completed order identified.
pub struct User {
    pub name: String,
    pub personal_number: String,
}

/// Whether the provider reports the order as still pending.
pub open spec fn reports_pending(c: CollectResponse) -> bool {
    c.status@ == "pending"@
}

/// Whether the provider reports the order complete and names the person.
pub open spec fn reports_complete(c: CollectResponse) -> bool {
    c.status@ == "complete"@ && c.completion_data is Some
}

/// The user number in a resolution result; `BadRequest` where none was
/// resolved.
pub open spec fn found_id(r: Result<Option<u32>, AuthError>) -> Result<u32, AuthError> {
    match r {
        Ok(Some(id)) => Ok(id),
        Ok(None) => Err(AuthError::BadRequest),
        Err(e) => Err(e),
    }
}

impl CollectResponse {
    /// Whether the provider reports the order as still pending.
    pub fn is_pending(&self) -> (r: bool)
        ensures
            r == reports_pending(*self),
    {
        text_is(self.status.as_str(), "pending")
    }

    /// The person identified, when the provider reports completion with data.
    pub fn completed_user(&self) -> (r: Option<&User>)
        ensures
            r is Some <==> reports_complete(*self),
            r matches Some(u) ==> self.completion_data matches Some(d) && *u == d.user,
    {
        if text_is(self.status.as_str(), "complete") {
            match &self.completion_data {
                Some(data) => Some(&data.user),
                None => None,
            }
        } else {
            None
        }
    }

    /// On completion, the local user of the identified person, created (with
    /// no email) if there is none yet; otherwise `None`.
    pub fn get_user(&self, users: &mut UserDirectory) -> (r: Result<Option<u32>, AuthError>)
        requires
            old(users).wf(),
        ensures
            final(users).wf(),
            !reports_complete(*self) ==> r == Ok::<Option<u32>, AuthError>(None) && final(users)@
                == old(users)@,
            reports_complete(*self) ==> {
                let person = self.completion_data.unwrap().user;
                get_or_create_outcome(
                    old(users)@,
                    final(users)@,
                    Some(person.name),
                    None,
                    person.personal_number,
                    found_id(r),
                )
            },
    {
        match self.completed_user() {
            Some(person) => {
                let name = person.name.clone();
                let external_id = person.personal_number.clone();
                let r = users.get_or_create_user(Some(name), None, external_id);
                match r {
                    Ok(id) => Ok(Some(id)),
                    Err(e) => Err(e),
                }
            },
            None => Ok(None),
        }
    }
}

} // verus!
