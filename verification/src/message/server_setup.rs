//! SERVER_SETUP and its payload.

use vstd::prelude::*;
use crate::codec::{Encode, Decode, RoundTrip, views};
use crate::codec::field::{InOrder, value_of, end_of, failure, lemma_append, lemma_holds_at_concat};
use crate::codec::list::{
    list_wire, list_refusal, parse_list, all_canonical, check_list, write_list, read_list,
    lemma_list_round_trip, lemma_list_parsed,
};
use crate::codec::varint::VARINT_LIMIT;
use crate::error::{Error, Fault};
use crate::model::{Parameter, ParameterView};

verus! {

/// SERVER_SETUP: the first message of a server. It names the version
/// that the server chose and its setup parameters.
#[derive(Debug, PartialEq, Eq, Clone)]
pub struct ServerSetup {
    pub selected_version: u32,
    pub setup_parameters: Vec<Parameter>,
}

/// The model of a [`ServerSetup`].
pub struct ServerSetupView {
    pub selected_version: u32,
    pub setup_parameters: Seq<ParameterView>,
}

impl View for ServerSetup {
    type V = ServerSetupView;

    open spec fn view(&self) -> ServerSetupView {
        ServerSetupView {
            selected_version: self.selected_version@,
            setup_parameters: views(self.setup_parameters@),
        }
    }
}

impl Encode for ServerSetup {
    open spec fn wire(m: ServerSetupView) -> Seq<u8> {
        u32::wire(m.selected_version)
            + list_wire::<Parameter>(m.setup_parameters)
    }

    open spec fn refusal(m: ServerSetupView) -> Option<Fault> {
        u32::refusal(m.selected_version)
            .otherwise(list_refusal::<Parameter>(m.setup_parameters))
    }

    fn check(&self) -> (r: Result<(), Error>) {
        self.selected_version.check()?;
        check_list(&self.setup_parameters)
    }

    fn write(&self, out: &mut Vec<u8>) {
        let ghost base = out@;
        let ghost m = self@;
        let ghost w0 = u32::wire(m.selected_version);
        self.selected_version.write(out);
        write_list(out, &self.setup_parameters);
        proof {
            lemma_append(base, w0, list_wire::<Parameter>(m.setup_parameters));
        }
    }
}

impl Decode for ServerSetup {
    open spec fn parse(b: Seq<u8>, pos: int) -> Result<(ServerSetupView, int), Fault> {
        let selected_version = u32::parse(b, pos);
        let setup_parameters = parse_list::<Parameter>(b, end_of(selected_version));
        let fault =
            failure(selected_version)
                .otherwise(failure(setup_parameters));
        match fault {
            Some(f) => Err(f),
            None => Ok(
                (
                    ServerSetupView {
                        selected_version: value_of(selected_version),
                        setup_parameters: value_of(setup_parameters),
                    },
                    end_of(setup_parameters),
                ),
            ),
        }
    }

    fn read(src: &[u8], pos: usize) -> (r: Result<(Self, usize), Error>) {
        let (selected_version, at) = u32::read(src, pos)?;
        let (setup_parameters, at) = read_list::<Parameter>(src, at)?;
        Ok((ServerSetup { selected_version, setup_parameters }, at))
    }
}

impl RoundTrip for ServerSetup {
    open spec fn canonical(m: ServerSetupView) -> bool {
        &&& u32::canonical(m.selected_version)
        &&& m.setup_parameters.len() < VARINT_LIMIT
        &&& all_canonical::<Parameter>(m.setup_parameters)
    }

    proof fn lemma_round_trip(m: ServerSetupView, b: Seq<u8>, pos: int) {
        let f0 = u32::wire(m.selected_version);
        let f1 = list_wire::<Parameter>(m.setup_parameters);
        lemma_holds_at_concat(b, pos, f0, f1);
        u32::lemma_round_trip(m.selected_version, b, pos);
        lemma_list_round_trip::<Parameter>(m.setup_parameters, b, pos + f0.len());
    }

    proof fn lemma_parse_canonical(b: Seq<u8>, pos: int) {
        let selected_version = u32::parse(b, pos);
        u32::lemma_parse_canonical(b, pos);
        lemma_list_parsed::<Parameter>(b, end_of(selected_version));
    }
}

} // verus!
