//! The control messages and their payloads.

pub mod announce;
pub mod announce_cancel;
pub mod announce_error;
pub mod announce_ok;
pub mod client_setup;
pub mod fetch;
pub mod fetch_cancel;
pub mod fetch_error;
pub mod fetch_ok;
pub mod goaway;
pub mod max_request_id;
pub mod publish;
pub mod publish_error;
pub mod publish_ok;
pub mod requests_blocked;
pub mod server_setup;
pub mod subscribe;
pub mod subscribe_announces;
pub mod subscribe_announces_error;
pub mod subscribe_announces_ok;
pub mod subscribe_done;
pub mod subscribe_error;
pub mod subscribe_ok;
pub mod subscribe_update;
pub mod track_status;
pub mod track_status_request;
pub mod unannounce;
pub mod unsubscribe;
pub mod unsubscribe_announces;

pub use announce::{Announce, AnnounceView};
pub use announce_cancel::{AnnounceCancel, AnnounceCancelView};
pub use announce_error::{AnnounceError, AnnounceErrorView};
pub use announce_ok::AnnounceOk;
pub use client_setup::{ClientSetup, ClientSetupView};
pub use fetch::{Fetch, FetchView};
pub use fetch_cancel::FetchCancel;
pub use fetch_error::{FetchError, FetchErrorView};
pub use fetch_ok::{FetchOk, FetchOkView};
pub use goaway::{Goaway, GoawayView};
pub use max_request_id::MaxRequestId;
pub use publish::{Publish, PublishView};
pub use publish_error::{PublishError, PublishErrorView};
pub use publish_ok::{PublishOk, PublishOkView};
pub use requests_blocked::RequestsBlocked;
pub use server_setup::{ServerSetup, ServerSetupView};
pub use subscribe::{Subscribe, SubscribeView};
pub use subscribe_announces::{SubscribeAnnounces, SubscribeAnnouncesView};
pub use subscribe_announces_error::{SubscribeAnnouncesError, SubscribeAnnouncesErrorView};
pub use subscribe_announces_ok::SubscribeAnnouncesOk;
pub use subscribe_done::{SubscribeDone, SubscribeDoneView};
pub use subscribe_error::{SubscribeError, SubscribeErrorView};
pub use subscribe_ok::{SubscribeOk, SubscribeOkView};
pub use subscribe_update::{SubscribeUpdate, SubscribeUpdateView};
pub use track_status::{TrackStatus, TrackStatusView};
pub use track_status_request::{TrackStatusRequest, TrackStatusRequestView};
pub use unannounce::Unannounce;
pub use unsubscribe::Unsubscribe;
pub use unsubscribe_announces::{UnsubscribeAnnounces, UnsubscribeAnnouncesView};

use vstd::prelude::*;
use crate::error::Error;

verus! {

/// A control message: one of the messages that travel, framed, on the
/// session's control stream.
#[derive(Debug, PartialEq, Eq, Clone)]
pub enum ControlMessage {
    ClientSetup(ClientSetup),
    ServerSetup(ServerSetup),
    Goaway(Goaway),
    MaxRequestId(MaxRequestId),
    RequestsBlocked(RequestsBlocked),
    Subscribe(Subscribe),
    SubscribeOk(SubscribeOk),
    SubscribeError(SubscribeError),
    SubscribeUpdate(SubscribeUpdate),
    Unsubscribe(Unsubscribe),
    SubscribeDone(SubscribeDone),
    Publish(Publish),
    PublishOk(PublishOk),
    PublishError(PublishError),
    Fetch(Fetch),
    FetchOk(FetchOk),
    FetchError(FetchError),
    FetchCancel(FetchCancel),
    TrackStatusRequest(TrackStatusRequest),
    TrackStatus(TrackStatus),
    Announce(Announce),
    AnnounceOk(AnnounceOk),
    AnnounceError(AnnounceError),
    Unannounce(Unannounce),
    AnnounceCancel(AnnounceCancel),
    SubscribeAnnounces(SubscribeAnnounces),
    SubscribeAnnouncesOk(SubscribeAnnouncesOk),
    SubscribeAnnouncesError(SubscribeAnnouncesError),
    UnsubscribeAnnounces(UnsubscribeAnnounces),
}

/// The model of a [`ControlMessage`].
pub enum ControlMessageView {
    ClientSetup(ClientSetupView),
    ServerSetup(ServerSetupView),
    Goaway(GoawayView),
    MaxRequestId(MaxRequestId),
    RequestsBlocked(RequestsBlocked),
    Subscribe(SubscribeView),
    SubscribeOk(SubscribeOkView),
    SubscribeError(SubscribeErrorView),
    SubscribeUpdate(SubscribeUpdateView),
    Unsubscribe(Unsubscribe),
    SubscribeDone(SubscribeDoneView),
    Publish(PublishView),
    PublishOk(PublishOkView),
    PublishError(PublishErrorView),
    Fetch(FetchView),
    FetchOk(FetchOkView),
    FetchError(FetchErrorView),
    FetchCancel(FetchCancel),
    TrackStatusRequest(TrackStatusRequestView),
    TrackStatus(TrackStatusView),
    Announce(AnnounceView),
    AnnounceOk(AnnounceOk),
    AnnounceError(AnnounceErrorView),
    Unannounce(Unannounce),
    AnnounceCancel(AnnounceCancelView),
    SubscribeAnnounces(SubscribeAnnouncesView),
    SubscribeAnnouncesOk(SubscribeAnnouncesOk),
    SubscribeAnnouncesError(SubscribeAnnouncesErrorView),
    UnsubscribeAnnounces(UnsubscribeAnnouncesView),
}

impl View for ControlMessage {
    type V = ControlMessageView;

    open spec fn view(&self) -> ControlMessageView {
        match self {
            ControlMessage::ClientSetup(m) => ControlMessageView::ClientSetup(m@),
            ControlMessage::ServerSetup(m) => ControlMessageView::ServerSetup(m@),
            ControlMessage::Goaway(m) => ControlMessageView::Goaway(m@),
            ControlMessage::MaxRequestId(m) => ControlMessageView::MaxRequestId(m@),
            ControlMessage::RequestsBlocked(m) => ControlMessageView::RequestsBlocked(m@),
            ControlMessage::Subscribe(m) => ControlMessageView::Subscribe(m@),
            ControlMessage::SubscribeOk(m) => ControlMessageView::SubscribeOk(m@),
            ControlMessage::SubscribeError(m) => ControlMessageView::SubscribeError(m@),
            ControlMessage::SubscribeUpdate(m) => ControlMessageView::SubscribeUpdate(m@),
            ControlMessage::Unsubscribe(m) => ControlMessageView::Unsubscribe(m@),
            ControlMessage::SubscribeDone(m) => ControlMessageView::SubscribeDone(m@),
            ControlMessage::Publish(m) => ControlMessageView::Publish(m@),
            ControlMessage::PublishOk(m) => ControlMessageView::PublishOk(m@),
            ControlMessage::PublishError(m) => ControlMessageView::PublishError(m@),
            ControlMessage::Fetch(m) => ControlMessageView::Fetch(m@),
            ControlMessage::FetchOk(m) => ControlMessageView::FetchOk(m@),
            ControlMessage::FetchError(m) => ControlMessageView::FetchError(m@),
            ControlMessage::FetchCancel(m) => ControlMessageView::FetchCancel(m@),
            ControlMessage::TrackStatusRequest(m) => ControlMessageView::TrackStatusRequest(m@),
            ControlMessage::TrackStatus(m) => ControlMessageView::TrackStatus(m@),
            ControlMessage::Announce(m) => ControlMessageView::Announce(m@),
            ControlMessage::AnnounceOk(m) => ControlMessageView::AnnounceOk(m@),
            ControlMessage::AnnounceError(m) => ControlMessageView::AnnounceError(m@),
            ControlMessage::Unannounce(m) => ControlMessageView::Unannounce(m@),
            ControlMessage::AnnounceCancel(m) => ControlMessageView::AnnounceCancel(m@),
            ControlMessage::SubscribeAnnounces(m) => ControlMessageView::SubscribeAnnounces(m@),
            ControlMessage::SubscribeAnnouncesOk(m) => ControlMessageView::SubscribeAnnouncesOk(m@),
            ControlMessage::SubscribeAnnouncesError(m) => ControlMessageView::SubscribeAnnouncesError(
                m@,
            ),
            ControlMessage::UnsubscribeAnnounces(m) => ControlMessageView::UnsubscribeAnnounces(m@),
        }
    }
}

/// The kinds of control message. Each has a type code, by which a frame
/// names the message that it carries.
#[derive(Debug, Clone, Copy, PartialEq, Eq, Structural)]
pub enum ControlMessageType {
    ClientSetup,
    ServerSetup,
    Goaway,
    MaxRequestId,
    RequestsBlocked,
    Subscribe,
    SubscribeOk,
    SubscribeError,
    SubscribeUpdate,
    Unsubscribe,
    SubscribeDone,
    Publish,
    PublishOk,
    PublishError,
    Fetch,
    FetchOk,
    FetchError,
    FetchCancel,
    TrackStatusRequest,
    TrackStatus,
    Announce,
    AnnounceOk,
    AnnounceError,
    Unannounce,
    AnnounceCancel,
    SubscribeAnnounces,
    SubscribeAnnouncesOk,
    SubscribeAnnouncesError,
    UnsubscribeAnnounces,
}

impl ControlMessageType {
    /// The type code of this kind of message.
    pub open spec fn spec_code(self) -> u64 {
        match self {
            ControlMessageType::ClientSetup => 0x20,
            ControlMessageType::ServerSetup => 0x21,
            ControlMessageType::Goaway => 0x10,
            ControlMessageType::MaxRequestId => 0x15,
            ControlMessageType::RequestsBlocked => 0x1A,
            ControlMessageType::Subscribe => 0x03,
            ControlMessageType::SubscribeOk => 0x04,
            ControlMessageType::SubscribeError => 0x05,
            ControlMessageType::SubscribeUpdate => 0x02,
            ControlMessageType::Unsubscribe => 0x0A,
            ControlMessageType::SubscribeDone => 0x0B,
            ControlMessageType::Publish => 0x1D,
            ControlMessageType::PublishOk => 0x1E,
            ControlMessageType::PublishError => 0x1F,
            ControlMessageType::Fetch => 0x16,
            ControlMessageType::FetchOk => 0x18,
            ControlMessageType::FetchError => 0x19,
            ControlMessageType::FetchCancel => 0x17,
            ControlMessageType::TrackStatusRequest => 0x0D,
            ControlMessageType::TrackStatus => 0x0E,
            ControlMessageType::Announce => 0x06,
            ControlMessageType::AnnounceOk => 0x07,
            ControlMessageType::AnnounceError => 0x08,
            ControlMessageType::Unannounce => 0x09,
            ControlMessageType::AnnounceCancel => 0x0C,
            ControlMessageType::SubscribeAnnounces => 0x11,
            ControlMessageType::SubscribeAnnouncesOk => 0x12,
            ControlMessageType::SubscribeAnnouncesError => 0x13,
            ControlMessageType::UnsubscribeAnnounces => 0x14,
        }
    }

    /// The kind of message that a type code names, if it names one.
    pub open spec fn of_code(value: u64) -> Option<ControlMessageType> {
        if value == 0x20 {
            Some(ControlMessageType::ClientSetup)
        } else if value == 0x21 {
            Some(ControlMessageType::ServerSetup)
        } else if value == 0x10 {
            Some(ControlMessageType::Goaway)
        } else if value == 0x15 {
            Some(ControlMessageType::MaxRequestId)
        } else if value == 0x1A {
            Some(ControlMessageType::RequestsBlocked)
        } else if value == 0x03 {
            Some(ControlMessageType::Subscribe)
        } else if value == 0x04 {
            Some(ControlMessageType::SubscribeOk)
        } else if value == 0x05 {
            Some(ControlMessageType::SubscribeError)
        } else if value == 0x02 {
            Some(ControlMessageType::SubscribeUpdate)
        } else if value == 0x0A {
            Some(ControlMessageType::Unsubscribe)
        } else if value == 0x0B {
            Some(ControlMessageType::SubscribeDone)
        } else if value == 0x1D {
            Some(ControlMessageType::Publish)
        } else if value == 0x1E {
            Some(ControlMessageType::PublishOk)
        } else if value == 0x1F {
            Some(ControlMessageType::PublishError)
        } else if value == 0x16 {
            Some(ControlMessageType::Fetch)
        } else if value == 0x18 {
            Some(ControlMessageType::FetchOk)
        } else if value == 0x19 {
            Some(ControlMessageType::FetchError)
        } else if value == 0x17 {
            Some(ControlMessageType::FetchCancel)
        } else if value == 0x0D {
            Some(ControlMessageType::TrackStatusRequest)
        } else if value == 0x0E {
            Some(ControlMessageType::TrackStatus)
        } else if value == 0x06 {
            Some(ControlMessageType::Announce)
        } else if value == 0x07 {
            Some(ControlMessageType::AnnounceOk)
        } else if value == 0x08 {
            Some(ControlMessageType::AnnounceError)
        } else if value == 0x09 {
            Some(ControlMessageType::Unannounce)
        } else if value == 0x0C {
            Some(ControlMessageType::AnnounceCancel)
        } else if value == 0x11 {
            Some(ControlMessageType::SubscribeAnnounces)
        } else if value == 0x12 {
            Some(ControlMessageType::SubscribeAnnouncesOk)
        } else if value == 0x13 {
            Some(ControlMessageType::SubscribeAnnouncesError)
        } else if value == 0x14 {
            Some(ControlMessageType::UnsubscribeAnnounces)
        } else {
            None
        }
    }

    /// The type code of this kind of message.
    #[verifier::when_used_as_spec(spec_code)]
    pub fn code(self) -> (code: u64)
        ensures
            code == self.spec_code(),
            ControlMessageType::of_code(code) == Some(self),
    {
        match self {
            ControlMessageType::ClientSetup => 0x20,
            ControlMessageType::ServerSetup => 0x21,
            ControlMessageType::Goaway => 0x10,
            ControlMessageType::MaxRequestId => 0x15,
            ControlMessageType::RequestsBlocked => 0x1A,
            ControlMessageType::Subscribe => 0x03,
            ControlMessageType::SubscribeOk => 0x04,
            ControlMessageType::SubscribeError => 0x05,
            ControlMessageType::SubscribeUpdate => 0x02,
            ControlMessageType::Unsubscribe => 0x0A,
            ControlMessageType::SubscribeDone => 0x0B,
            ControlMessageType::Publish => 0x1D,
            ControlMessageType::PublishOk => 0x1E,
            ControlMessageType::PublishError => 0x1F,
            ControlMessageType::Fetch => 0x16,
            ControlMessageType::FetchOk => 0x18,
            ControlMessageType::FetchError => 0x19,
            ControlMessageType::FetchCancel => 0x17,
            ControlMessageType::TrackStatusRequest => 0x0D,
            ControlMessageType::TrackStatus => 0x0E,
            ControlMessageType::Announce => 0x06,
            ControlMessageType::AnnounceOk => 0x07,
            ControlMessageType::AnnounceError => 0x08,
            ControlMessageType::Unannounce => 0x09,
            ControlMessageType::AnnounceCancel => 0x0C,
            ControlMessageType::SubscribeAnnounces => 0x11,
            ControlMessageType::SubscribeAnnouncesOk => 0x12,
            ControlMessageType::SubscribeAnnouncesError => 0x13,
            ControlMessageType::UnsubscribeAnnounces => 0x14,
        }
    }

    /// The kind of message that `value` names. A value that names none is
    /// refused as an unknown message type.
    pub fn try_from(value: u64) -> (r: Result<ControlMessageType, Error>)
        ensures
            match ControlMessageType::of_code(value) {
                Some(kind) => r == Ok::<ControlMessageType, Error>(kind) && kind.spec_code()
                    == value,
                None => r == Err::<ControlMessageType, Error>(Error::UnknownMessageType),
            },
    {
        if value == 0x20 {
            Ok(ControlMessageType::ClientSetup)
        } else if value == 0x21 {
            Ok(ControlMessageType::ServerSetup)
        } else if value == 0x10 {
            Ok(ControlMessageType::Goaway)
        } else if value == 0x15 {
            Ok(ControlMessageType::MaxRequestId)
        } else if value == 0x1A {
            Ok(ControlMessageType::RequestsBlocked)
        } else if value == 0x03 {
            Ok(ControlMessageType::Subscribe)
        } else if value == 0x04 {
            Ok(ControlMessageType::SubscribeOk)
        } else if value == 0x05 {
            Ok(ControlMessageType::SubscribeError)
        } else if value == 0x02 {
            Ok(ControlMessageType::SubscribeUpdate)
        } else if value == 0x0A {
            Ok(ControlMessageType::Unsubscribe)
        } else if value == 0x0B {
            Ok(ControlMessageType::SubscribeDone)
        } else if value == 0x1D {
            Ok(ControlMessageType::Publish)
        } else if value == 0x1E {
            Ok(ControlMessageType::PublishOk)
        } else if value == 0x1F {
            Ok(ControlMessageType::PublishError)
        } else if value == 0x16 {
            Ok(ControlMessageType::Fetch)
        } else if value == 0x18 {
            Ok(ControlMessageType::FetchOk)
        } else if value == 0x19 {
            Ok(ControlMessageType::FetchError)
        } else if value == 0x17 {
            Ok(ControlMessageType::FetchCancel)
        } else if value == 0x0D {
            Ok(ControlMessageType::TrackStatusRequest)
        } else if value == 0x0E {
            Ok(ControlMessageType::TrackStatus)
        } else if value == 0x06 {
            Ok(ControlMessageType::Announce)
        } else if value == 0x07 {
            Ok(ControlMessageType::AnnounceOk)
        } else if value == 0x08 {
            Ok(ControlMessageType::AnnounceError)
        } else if value == 0x09 {
            Ok(ControlMessageType::Unannounce)
        } else if value == 0x0C {
            Ok(ControlMessageType::AnnounceCancel)
        } else if value == 0x11 {
            Ok(ControlMessageType::SubscribeAnnounces)
        } else if value == 0x12 {
            Ok(ControlMessageType::SubscribeAnnouncesOk)
        } else if value == 0x13 {
            Ok(ControlMessageType::SubscribeAnnouncesError)
        } else if value == 0x14 {
            Ok(ControlMessageType::UnsubscribeAnnounces)
        } else {
            Err(Error::UnknownMessageType)
        }
    }
}

impl ControlMessageView {
    /// The kind of this message.
    pub open spec fn kind(self) -> ControlMessageType {
        match self {
            ControlMessageView::ClientSetup(_) => ControlMessageType::ClientSetup,
            ControlMessageView::ServerSetup(_) => ControlMessageType::ServerSetup,
            ControlMessageView::Goaway(_) => ControlMessageType::Goaway,
            ControlMessageView::MaxRequestId(_) => ControlMessageType::MaxRequestId,
            ControlMessageView::RequestsBlocked(_) => ControlMessageType::RequestsBlocked,
            ControlMessageView::Subscribe(_) => ControlMessageType::Subscribe,
            ControlMessageView::SubscribeOk(_) => ControlMessageType::SubscribeOk,
            ControlMessageView::SubscribeError(_) => ControlMessageType::SubscribeError,
            ControlMessageView::SubscribeUpdate(_) => ControlMessageType::SubscribeUpdate,
            ControlMessageView::Unsubscribe(_) => ControlMessageType::Unsubscribe,
            ControlMessageView::SubscribeDone(_) => ControlMessageType::SubscribeDone,
            ControlMessageView::Publish(_) => ControlMessageType::Publish,
            ControlMessageView::PublishOk(_) => ControlMessageType::PublishOk,
            ControlMessageView::PublishError(_) => ControlMessageType::PublishError,
            ControlMessageView::Fetch(_) => ControlMessageType::Fetch,
            ControlMessageView::FetchOk(_) => ControlMessageType::FetchOk,
            ControlMessageView::FetchError(_) => ControlMessageType::FetchError,
            ControlMessageView::FetchCancel(_) => ControlMessageType::FetchCancel,
            ControlMessageView::TrackStatusRequest(_) => ControlMessageType::TrackStatusRequest,
            ControlMessageView::TrackStatus(_) => ControlMessageType::TrackStatus,
            ControlMessageView::Announce(_) => ControlMessageType::Announce,
            ControlMessageView::AnnounceOk(_) => ControlMessageType::AnnounceOk,
            ControlMessageView::AnnounceError(_) => ControlMessageType::AnnounceError,
            ControlMessageView::Unannounce(_) => ControlMessageType::Unannounce,
            ControlMessageView::AnnounceCancel(_) => ControlMessageType::AnnounceCancel,
            ControlMessageView::SubscribeAnnounces(_) => ControlMessageType::SubscribeAnnounces,
            ControlMessageView::SubscribeAnnouncesOk(_) => ControlMessageType::SubscribeAnnouncesOk,
            ControlMessageView::SubscribeAnnouncesError(_) => {
                ControlMessageType::SubscribeAnnouncesError
            },
            ControlMessageView::UnsubscribeAnnounces(_) => ControlMessageType::UnsubscribeAnnounces,
        }
    }
}

impl ControlMessage {
    /// The kind of this message.
    pub fn message_type(&self) -> (kind: ControlMessageType)
        ensures
            kind == self@.kind(),
    {
        match self {
            ControlMessage::ClientSetup(_) => ControlMessageType::ClientSetup,
            ControlMessage::ServerSetup(_) => ControlMessageType::ServerSetup,
            ControlMessage::Goaway(_) => ControlMessageType::Goaway,
            ControlMessage::MaxRequestId(_) => ControlMessageType::MaxRequestId,
            ControlMessage::RequestsBlocked(_) => ControlMessageType::RequestsBlocked,
            ControlMessage::Subscribe(_) => ControlMessageType::Subscribe,
            ControlMessage::SubscribeOk(_) => ControlMessageType::SubscribeOk,
            ControlMessage::SubscribeError(_) => ControlMessageType::SubscribeError,
            ControlMessage::SubscribeUpdate(_) => ControlMessageType::SubscribeUpdate,
            ControlMessage::Unsubscribe(_) => ControlMessageType::Unsubscribe,
            ControlMessage::SubscribeDone(_) => ControlMessageType::SubscribeDone,
            ControlMessage::Publish(_) => ControlMessageType::Publish,
            ControlMessage::PublishOk(_) => ControlMessageType::PublishOk,
            ControlMessage::PublishError(_) => ControlMessageType::PublishError,
            ControlMessage::Fetch(_) => ControlMessageType::Fetch,
            ControlMessage::FetchOk(_) => ControlMessageType::FetchOk,
            ControlMessage::FetchError(_) => ControlMessageType::FetchError,
            ControlMessage::FetchCancel(_) => ControlMessageType::FetchCancel,
            ControlMessage::TrackStatusRequest(_) => ControlMessageType::TrackStatusRequest,
            ControlMessage::TrackStatus(_) => ControlMessageType::TrackStatus,
            ControlMessage::Announce(_) => ControlMessageType::Announce,
            ControlMessage::AnnounceOk(_) => ControlMessageType::AnnounceOk,
            ControlMessage::AnnounceError(_) => ControlMessageType::AnnounceError,
            ControlMessage::Unannounce(_) => ControlMessageType::Unannounce,
            ControlMessage::AnnounceCancel(_) => ControlMessageType::AnnounceCancel,
            ControlMessage::SubscribeAnnounces(_) => ControlMessageType::SubscribeAnnounces,
            ControlMessage::SubscribeAnnouncesOk(_) => ControlMessageType::SubscribeAnnouncesOk,
            ControlMessage::SubscribeAnnouncesError(_) => {
                ControlMessageType::SubscribeAnnouncesError
            },
            ControlMessage::UnsubscribeAnnounces(_) => ControlMessageType::UnsubscribeAnnounces,
        }
    }
}

} // verus!
