//! CLIENT_SETUP and its payload.

use vstd::prelude::*;
use crate::codec::{Encode, Decode, RoundTrip, views};
use crate::codec::field::{InOrder, value_of, end_of, failure, lemma_append, lemma_holds_at_concat};
use crate::codec::list::{
    list_wire, list_refusal, parse_list, all_canonical, check_list, write_list, read_list,
    lemma_list_round_trip, lemma_list_parsed,
};
use crate::codec::varint::VARINT_LIMIT;
use crate::error::{Error, Fault};
use crate::model::{Parameter, ParameterView};

verus! {

/// CLIENT_SETUP: the first message of a client. It offers the
/// versions that the client speaks and its setup parameters.
#[derive(Debug, PartialEq, Eq, Clone)]
pub struct ClientSetup {
    pub supported_versions: Vec<u32>,
    pub setup_parameters: Vec<Parameter>,
}

/// The model of a [`ClientSetup`].
pub struct ClientSetupView {
    pub supported_versions: Seq<u32>,
    pub setup_parameters: Seq<ParameterView>,
}

impl View for ClientSetup {
    type V = ClientSetupView;

    open spec fn view(&self) -> ClientSetupView {
        ClientSetupView {
            supported_versions: views(self.supported_versions@),
            setup_parameters: views(self.setup_parameters@),
        }
    }
}

impl Encode for ClientSetup {
    open spec fn wire(m: ClientSetupView) -> Seq<u8> {
        list_wire::<u32>(m.supported_versions)
            + list_wire::<Parameter>(m.setup_parameters)
    }

    open spec fn refusal(m: ClientSetupView) -> Option<Fault> {
        list_refusal::<u32>(m.supported_versions)
            .otherwise(list_refusal::<Parameter>(m.setup_parameters))
    }

    fn check(&self) -> (r: Result<(), Error>) {
        check_list(&self.supported_versions)?;
        check_list(&self.setup_parameters)
    }

    fn write(&self, out: &mut Vec<u8>) {
        let ghost base = out@;
        let ghost m = self@;
        let ghost w0 = list_wire::<u32>(m.supported_versions);
        write_list(out, &self.supported_versions);
        write_list(out, &self.setup_parameters);
        proof {
            lemma_append(base, w0, list_wire::<Parameter>(m.setup_parameters));
        }
    }
}

impl Decode for ClientSetup {
    open spec fn parse(b: Seq<u8>, pos: int) -> Result<(ClientSetupView, int), Fault> {
        let supported_versions = parse_list::<u32>(b, pos);
        let setup_parameters = parse_list::<Parameter>(b, end_of(supported_versions));
        let fault =
            failure(supported_versions)
                .otherwise(failure(setup_parameters));
        match fault {
            Some(f) => Err(f),
            None => Ok(
                (
                    ClientSetupView {
                        supported_versions: value_of(supported_versions),
                        setup_parameters: value_of(setup_parameters),
                    },
                    end_of(setup_parameters),
                ),
            ),
        }
    }

    fn read(src: &[u8], pos: usize) -> (r: Result<(Self, usize), Error>) {
        let (supported_versions, at) = read_list::<u32>(src, pos)?;
        let (setup_parameters, at) = read_list::<Parameter>(src, at)?;
        Ok((ClientSetup { supported_versions, setup_parameters }, at))
    }
}

impl RoundTrip for ClientSetup {
    open spec fn canonical(m: ClientSetupView) -> bool {
        &&& m.supported_versions.len() < VARINT_LIMIT
        &&& all_canonical::<u32>(m.supported_versions)
        &&& m.setup_parameters.len() < VARINT_LIMIT
        &&& all_canonical::<Parameter>(m.setup_parameters)
    }

    proof fn lemma_round_trip(m: ClientSetupView, b: Seq<u8>, pos: int) {
        let f0 = list_wire::<u32>(m.supported_versions);
        let f1 = list_wire::<Parameter>(m.setup_parameters);
        lemma_holds_at_concat(b, pos, f0, f1);
        lemma_list_round_trip::<u32>(m.supported_versions, b, pos);
        lemma_list_round_trip::<Parameter>(m.setup_parameters, b, pos + f0.len());
    }

    proof fn lemma_parse_canonical(b: Seq<u8>, pos: int) {
        let supported_versions = parse_list::<u32>(b, pos);
        lemma_list_parsed::<u32>(b, pos);
        lemma_list_parsed::<Parameter>(b, end_of(supported_versions));
    }
}

} // verus!
