//! Why a simulation stops early.
use vstd::prelude::*;

verus! {

/// The ways in which a simulation can be refused, each with the reason given
/// for it.
#[derive(Clone, Debug, PartialEq, Eq)]
pub enum ShootError {
    /// The configured RPC endpoint is not an absolute URL.
    InvalidUrl(String),
    /// The environment was asked for before the setup phase had populated it.
    EnvironmentNotPopulated,
    /// The chain id does not spell a text.
    ChainIdNotText(String),
    /// A contract artifact is not the JSON of a legacy contract class.
    MalformedArtifact(String),
    /// A contract artifact holds a class whose hash cannot be computed.
    UnhashableArtifact(String),
    /// A file or the network failed.
    Remote(String),
}

#[verifier::ext_equal]
pub enum ErrorView {
    InvalidUrl(Seq<char>),
    EnvironmentNotPopulated,
    ChainIdNotText(Seq<char>),
    MalformedArtifact(Seq<char>),
    UnhashableArtifact(Seq<char>),
    Remote(Seq<char>),
}

impl View for ShootError {
    type V = ErrorView;

    open spec fn view(&self) -> ErrorView {
        match *self {
            ShootError::InvalidUrl(reason) => ErrorView::InvalidUrl(reason@),
            ShootError::EnvironmentNotPopulated => ErrorView::EnvironmentNotPopulated,
            ShootError::ChainIdNotText(reason) => ErrorView::ChainIdNotText(reason@),
            ShootError::MalformedArtifact(reason) => ErrorView::MalformedArtifact(reason@),
            ShootError::UnhashableArtifact(reason) => ErrorView::UnhashableArtifact(reason@),
            ShootError::Remote(reason) => ErrorView::Remote(reason@),
        }
    }
}

impl ErrorView {
    /// The text shown to the user.
    pub open spec fn text(self) -> Seq<char> {
        match self {
            ErrorView::EnvironmentNotPopulated =>
                "Environment is not yet populated, you should run the setup function first"@,
            ErrorView::InvalidUrl(reason) => reason,
            ErrorView::ChainIdNotText(reason) => reason,
            ErrorView::MalformedArtifact(reason) => reason,
            ErrorView::UnhashableArtifact(reason) => reason,
            ErrorView::Remote(reason) => reason,
        }
    }
}

impl ShootError {
    /// The text shown to the user.
    pub fn message(&self) -> (message: String)
        ensures
            message@ == self@.text(),
    {
        match self {
            ShootError::EnvironmentNotPopulated =>
                "Environment is not yet populated, you should run the setup function first".to_owned(),
            ShootError::InvalidUrl(reason)
            | ShootError::ChainIdNotText(reason)
            | ShootError::MalformedArtifact(reason)
            | ShootError::UnhashableArtifact(reason)
            | ShootError::Remote(reason) => reason.clone(),
        }
    }
}

/// The user is shown the reason of an error as it was given; only the missing
/// environment has a text of its own.
pub proof fn law_texts(error: ShootError)
    ensures
        error is EnvironmentNotPopulated ==> error@.text()
            == "Environment is not yet populated, you should run the setup function first"@,
        error matches ShootError::InvalidUrl(reason) ==> error@ == ErrorView::InvalidUrl(reason@)
            && error@.text() == reason@,
        error matches ShootError::ChainIdNotText(reason) ==> error@ == ErrorView::ChainIdNotText(
            reason@,
        ) && error@.text() == reason@,
        error matches ShootError::MalformedArtifact(reason) ==> error@
            == ErrorView::MalformedArtifact(reason@) && error@.text() == reason@,
        error matches ShootError::UnhashableArtifact(reason) ==> error@
            == ErrorView::UnhashableArtifact(reason@) && error@.text() == reason@,
        error matches ShootError::Remote(reason) ==> error@ == ErrorView::Remote(reason@)
            && error@.text() == reason@,
        error is EnvironmentNotPopulated <==> error@ is EnvironmentNotPopulated,
{
}

} // verus!
