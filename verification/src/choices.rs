//! The standing of a block in consensus.

use vstd::prelude::*;

verus! {

/// The standing of a block in consensus.
#[derive(Clone, Debug, PartialEq, Eq)]
pub enum Status {
    /// Known, not decided yet.
    Processing,
    /// Rejected: it will never be accepted.
    Rejected,
    /// Accepted.
    Accepted,
    /// Not known; the text says what is known of it.
    Unknown(String),
}

/// What a [`Status`] says.
pub enum StatusView {
    Processing,
    Rejected,
    Accepted,
    Unknown(Seq<char>),
}

impl View for Status {
    type V = StatusView;

    open spec fn view(&self) -> StatusView {
        match self {
            Status::Processing => StatusView::Processing,
            Status::Rejected => StatusView::Rejected,
            Status::Accepted => StatusView::Accepted,
            Status::Unknown(text) => StatusView::Unknown(text@),
        }
    }
}

/// The standing of a block to which none was given.
pub open spec fn default_status() -> StatusView {
    StatusView::Unknown("default"@)
}

impl Default for Status {
    fn default() -> (status: Status)
        ensures
            status@ == default_status(),
    {
        outside_default_status()
    }
}

/// Calls `avalanche_types::choices::status::Status::default` and hands its
/// variant over. Trusted: it is the unknown standing, with the text `default`.
#[verifier::external_body]
fn outside_default_status() -> (status: Status)
    ensures
        status@ == default_status(),
{
    match avalanche_types::choices::status::Status::default() {
        avalanche_types::choices::status::Status::Processing => Status::Processing,
        avalanche_types::choices::status::Status::Rejected => Status::Rejected,
        avalanche_types::choices::status::Status::Accepted => Status::Accepted,
        avalanche_types::choices::status::Status::Unknown(text) => Status::Unknown(text),
    }
}

} // verus!
