//! What can go wrong between the stage and the block engine.
use vstd::prelude::*;

use tonic::Status;

verus! {

/// The errors that end a session with the block engine.
#[derive(Debug)]
pub enum PbsError {
    PbsConnectionError(String),
    PbsConnectionTimeout,
    MethodTimeout(String),
    MethodError(String),
    SimulationSettingsError,
    GrpcError(Status),
    GrpcStreamDisconnected,
    SlotBoundaryCheckerError,
    PacketForwardError,
    AuthenticationConnectionError(String),
}

/// What a [`PbsError`] says.
#[verifier::ext_equal]
pub enum PbsErrorView {
    PbsConnectionError(Seq<char>),
    PbsConnectionTimeout,
    MethodTimeout(Seq<char>),
    MethodError(Seq<char>),
    SimulationSettingsError,
    GrpcError(Status),
    GrpcStreamDisconnected,
    SlotBoundaryCheckerError,
    PacketForwardError,
    AuthenticationConnectionError(Seq<char>),
}

impl View for PbsError {
    type V = PbsErrorView;

    open spec fn view(&self) -> PbsErrorView {
        match *self {
            PbsError::PbsConnectionError(text) => PbsErrorView::PbsConnectionError(text@),
            PbsError::PbsConnectionTimeout => PbsErrorView::PbsConnectionTimeout,
            PbsError::MethodTimeout(text) => PbsErrorView::MethodTimeout(text@),
            PbsError::MethodError(text) => PbsErrorView::MethodError(text@),
            PbsError::SimulationSettingsError => PbsErrorView::SimulationSettingsError,
            PbsError::GrpcError(status) => PbsErrorView::GrpcError(status),
            PbsError::GrpcStreamDisconnected => PbsErrorView::GrpcStreamDisconnected,
            PbsError::SlotBoundaryCheckerError => PbsErrorView::SlotBoundaryCheckerError,
            PbsError::PacketForwardError => PbsErrorView::PacketForwardError,
            PbsError::AuthenticationConnectionError(
                text,
            ) => PbsErrorView::AuthenticationConnectionError(text@),
        }
    }
}

/// An error is seen as the error that it is, with its text or its status.
pub proof fn errors_are_seen_as_they_are(error: PbsError)
    ensures
        error matches PbsError::PbsConnectionError(text) ==> error@
            == PbsErrorView::PbsConnectionError(text@),
        error is PbsConnectionTimeout <==> error@ is PbsConnectionTimeout,
        error matches PbsError::MethodTimeout(text) ==> error@ == PbsErrorView::MethodTimeout(
            text@,
        ),
        error matches PbsError::MethodError(text) ==> error@ == PbsErrorView::MethodError(text@),
        error is SimulationSettingsError <==> error@ is SimulationSettingsError,
        error matches PbsError::GrpcError(status) ==> error@ == PbsErrorView::GrpcError(status),
        error is GrpcStreamDisconnected <==> error@ is GrpcStreamDisconnected,
        error is SlotBoundaryCheckerError <==> error@ is SlotBoundaryCheckerError,
        error is PacketForwardError <==> error@ is PacketForwardError,
        error matches PbsError::AuthenticationConnectionError(text) ==> error@
            == PbsErrorView::AuthenticationConnectionError(text@),
{
}

} // verus!
