//! Output records: one entry per runnable container of the generated
//! compose-style configuration, together with its mathematical model.

use vstd::prelude::*;

verus! {

/// The build block of an output record: a local build context path.
#[derive(Debug, PartialEq)]
pub struct BuildContext {
    pub context: String,
}

/// One record of the generated configuration: a runnable container with its
/// image or build context, dependencies, networks, ports and command.
#[derive(Debug, PartialEq)]
pub struct ContainerAppConfiguration {
    pub image: Option<String>,
    pub build: Option<BuildContext>,
    pub name: String,
    pub depends_on: Option<Vec<String>>,
    pub networks: Option<Vec<String>>,
    pub network_mode: Option<String>,
    pub ports: Option<Vec<String>>,
    pub command: Option<Vec<String>>,
}

/// Mathematical model of an output record: every string as a character
/// sequence.
#[verifier::ext_equal]
pub ghost struct RecordModel {
    pub image: Option<Seq<char>>,
    pub build: Option<Seq<char>>,
    pub name: Seq<char>,
    pub depends_on: Option<Seq<Seq<char>>>,
    pub networks: Option<Seq<Seq<char>>>,
    pub network_mode: Option<Seq<char>>,
    pub ports: Option<Seq<Seq<char>>>,
    pub command: Option<Seq<Seq<char>>>,
}

/// View of an optional string.
pub open spec fn opt_str_view(o: Option<String>) -> Option<Seq<char>> {
    match o {
        Some(s) => Some(s@),
        None => None,
    }
}

/// View of an optional list of strings.
pub open spec fn opt_strings_view(o: Option<Vec<String>>) -> Option<Seq<Seq<char>>> {
    match o {
        Some(v) => Some(v.deep_view()),
        None => None,
    }
}

impl ContainerAppConfiguration {
    /// The model of this record.
    pub open spec fn model(self) -> RecordModel {
        RecordModel {
            image: opt_str_view(self.image),
            build: match self.build {
                Some(b) => Some(b.context@),
                None => None,
            },
            name: self.name@,
            depends_on: opt_strings_view(self.depends_on),
            networks: opt_strings_view(self.networks),
            network_mode: opt_str_view(self.network_mode),
            ports: opt_strings_view(self.ports),
            command: opt_strings_view(self.command),
        }
    }
}

/// The models of a sequence of records.
pub open spec fn records_model(v: Seq<ContainerAppConfiguration>) -> Seq<RecordModel> {
    v.map_values(|c: ContainerAppConfiguration| c.model())
}

} // verus!
