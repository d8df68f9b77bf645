//! GOAWAY and its payload.

use vstd::prelude::*;
use vstd::utf8::encode_utf8;
use crate::codec::{Encode, Decode, RoundTrip};
use crate::codec::field::write_int;
use crate::codec::optional::opt_view;
use crate::codec::text::{
    text_refusal_within, parse_text_within, check_text_within, read_text_within,
    lemma_text_within_parsed, lemma_text_within_round_trip,
};
use crate::error::{Error, Fault};

verus! {

/// The longest URI that GOAWAY may carry, in bytes.
pub const MAX_URI_LENGTH: u64 = 8192;

/// GOAWAY: the sender is about to close the session. A server may name a URI
/// at which the client can open a new one; a client names none.
#[derive(Debug, PartialEq, Eq, Clone)]
pub struct Goaway {
    /// The URI of the new session. On the wire no URI and an empty URI are
    /// the same, and both are read as `None`.
    pub new_session_uri: Option<String>,
}

/// The model of a [`Goaway`].
pub struct GoawayView {
    pub new_session_uri: Option<Seq<char>>,
}

impl View for Goaway {
    type V = GoawayView;

    open spec fn view(&self) -> GoawayView {
        GoawayView { new_session_uri: opt_view(self.new_session_uri) }
    }
}

impl GoawayView {
    /// The text that travels: the URI, or nothing.
    pub open spec fn uri_text(self) -> Seq<char> {
        match self.new_session_uri {
            Some(uri) => uri,
            None => Seq::<char>::empty(),
        }
    }
}

impl Goaway {
    /// The longest URI that the message may carry, in bytes.
    pub const MAX_URI_LENGTH: usize = 8192;
}

impl Encode for Goaway {
    open spec fn wire(m: GoawayView) -> Seq<u8> {
        String::wire(m.uri_text())
    }

    open spec fn refusal(m: GoawayView) -> Option<Fault> {
        text_refusal_within(m.uri_text(), MAX_URI_LENGTH)
    }

    fn check(&self) -> (r: Result<(), Error>) {
        match &self.new_session_uri {
            Some(uri) => check_text_within(uri, MAX_URI_LENGTH, "uri too long"),
            None => {
                assert(encode_utf8(Seq::<char>::empty()) =~= Seq::<u8>::empty());
                Ok(())
            },
        }
    }

    fn write(&self, out: &mut Vec<u8>) {
        match &self.new_session_uri {
            Some(uri) => {
                uri.write(out);
            },
            None => {
                write_int(out, 0);
                assert(encode_utf8(Seq::<char>::empty()) =~= Seq::<u8>::empty());
                assert(out@ =~= old(out)@ + Self::wire(self@));
            },
        }
    }
}

impl Decode for Goaway {
    open spec fn parse(b: Seq<u8>, pos: int) -> Result<(GoawayView, int), Fault> {
        match parse_text_within(b, pos, MAX_URI_LENGTH) {
            Err(f) => Err(f),
            Ok((uri, at)) => Ok(
                (GoawayView { new_session_uri: if uri.len() == 0 { None } else { Some(uri) } }, at),
            ),
        }
    }

    fn read(src: &[u8], pos: usize) -> (r: Result<(Self, usize), Error>) {
        let (uri, at) = read_text_within(src, pos, MAX_URI_LENGTH, "uri too long")?;
        let new_session_uri = if uri.as_str().is_empty() {
            None
        } else {
            Some(uri)
        };
        Ok((Goaway { new_session_uri }, at))
    }
}

impl RoundTrip for Goaway {
    open spec fn canonical(m: GoawayView) -> bool {
        match m.new_session_uri {
            Some(uri) => uri.len() > 0 && String::canonical(uri) && encode_utf8(uri).len()
                <= MAX_URI_LENGTH,
            None => true,
        }
    }

    proof fn lemma_round_trip(m: GoawayView, b: Seq<u8>, pos: int) {
        assert(encode_utf8(Seq::<char>::empty()) =~= Seq::<u8>::empty());
        lemma_text_within_round_trip(m.uri_text(), MAX_URI_LENGTH, b, pos);
    }

    proof fn lemma_parse_canonical(b: Seq<u8>, pos: int) {
        lemma_text_within_parsed(b, pos, MAX_URI_LENGTH);
    }
}

} // verus!
