//! Data model: source rules, converted commands, and the target
//! configuration, each with a mathematical view and a well-formedness
//! predicate.

use vstd::prelude::*;

verus! {

/// One trap definition from the source rule corpus.
pub struct Rule {
    pub method: String,
    /// Literal URL path, not yet a pattern.
    pub path: String,
    /// Response status; the source format requires a positive value.
    pub status: u16,
    pub content_type: Option<String>,
    /// Header name/value pairs; order is irrelevant, keys are unique.
    pub headers: Vec<(String, String)>,
    /// Literal response payload returned by the honeypot.
    pub body: String,
    /// Provenance label; filled in by the loader from the originating file
    /// path when the source document did not supply one.
    pub filename: Option<String>,
}

/// Mathematical model of one source rule.
#[verifier::ext_equal]
pub struct RuleModel {
    pub method: Seq<char>,
    pub path: Seq<char>,
    pub status: u16,
    pub content_type: Option<Seq<char>>,
    pub headers: Seq<(Seq<char>, Seq<char>)>,
    pub body: Seq<char>,
    pub filename: Option<Seq<char>>,
}

impl View for Rule {
    type V = RuleModel;

    open spec fn view(&self) -> RuleModel {
        RuleModel {
            method: self.method@,
            path: self.path@,
            status: self.status,
            content_type: self.content_type.deep_view(),
            headers: self.headers.deep_view(),
            body: self.body@,
            filename: self.filename.deep_view(),
        }
    }
}

impl DeepView for Rule {
    type V = RuleModel;

    open spec fn deep_view(&self) -> RuleModel {
        self.view()
    }
}

impl Rule {
    /// Validity of a parsed rule: a positive status and unique header keys.
    pub open spec fn wf(&self) -> bool {
        &&& self.status >= 1
        &&& forall|i: int, j: int|
            0 <= i < j < self@.headers.len() ==> self@.headers[i].0 != self@.headers[j].0
    }
}

/// The ordered sequence of rules parsed from one source document.
pub struct Rules(pub Vec<Rule>);

impl View for Rules {
    type V = Seq<RuleModel>;

    open spec fn view(&self) -> Seq<RuleModel> {
        self.0.deep_view()
    }
}

impl Rules {
    /// Hands the underlying rules out in document order.
    pub fn into_vec(self) -> (r: Vec<Rule>)
        ensures
            r.deep_view() == self@,
    {
        self.0
    }
}

/// One converted trap definition in the target configuration's schema.
pub struct BeelzebubRule {
    /// Provenance label of the originating rule file, when the source rule
    /// supplied none of its own.
    pub name: Option<String>,
    /// Full-path-match pattern of the form `^...$`; also the dedup key.
    pub regex: String,
    /// The response body, copied verbatim from the source rule.
    pub handler: String,
    /// Header lines `"name: value"`; a set, so duplicate lines collapse.
    pub headers: Vec<String>,
    /// Always populated from the source status during conversion.
    pub status_code: Option<u16>,
}

/// Mathematical model of one converted command; the header lines form a
/// set, since their order is irrelevant and duplicates collapse.
#[verifier::ext_equal]
pub struct CommandModel {
    pub name: Option<Seq<char>>,
    pub regex: Seq<char>,
    pub handler: Seq<char>,
    pub headers: Set<Seq<char>>,
    pub status_code: Option<u16>,
}

impl View for BeelzebubRule {
    type V = CommandModel;

    open spec fn view(&self) -> CommandModel {
        CommandModel {
            name: self.name.deep_view(),
            regex: self.regex@,
            handler: self.handler@,
            headers: self.headers.deep_view().to_set(),
            status_code: self.status_code,
        }
    }
}

impl DeepView for BeelzebubRule {
    type V = CommandModel;

    open spec fn deep_view(&self) -> CommandModel {
        self.view()
    }
}

impl BeelzebubRule {
    /// The header lines carry no duplicates: the vector represents a set.
    pub open spec fn wf(&self) -> bool {
        forall|i: int, j: int|
            0 <= i < j < self.headers.deep_view().len()
                ==> self.headers.deep_view()[i] != self.headers.deep_view()[j]
    }
}

/// The aggregate target configuration: service metadata plus the full
/// command list.
pub struct BeelzebubConfig {
    pub commands: Vec<BeelzebubRule>,
    pub api_version: String,
    pub protocol: String,
    pub address: String,
    pub description: String,
}

/// Mathematical model of the target configuration.
#[verifier::ext_equal]
pub struct ConfigModel {
    pub commands: Seq<CommandModel>,
    pub api_version: Seq<char>,
    pub protocol: Seq<char>,
    pub address: Seq<char>,
    pub description: Seq<char>,
}

impl View for BeelzebubConfig {
    type V = ConfigModel;

    open spec fn view(&self) -> ConfigModel {
        ConfigModel {
            commands: self.commands.deep_view(),
            api_version: self.api_version@,
            protocol: self.protocol@,
            address: self.address@,
            description: self.description@,
        }
    }
}

/// No two commands in the list share a routing key.
pub open spec fn spec_unique_keys(commands: Seq<CommandModel>) -> bool {
    forall|i: int, j: int| 0 <= i < j < commands.len() ==> commands[i].regex != commands[j].regex
}

impl BeelzebubConfig {
    /// No two commands share the same routing key (`regex` value).
    pub open spec fn wf(&self) -> bool {
        spec_unique_keys(self@.commands)
    }
}

impl core::default::Default for BeelzebubConfig {
    /// A fresh configuration: no commands, and the fixed service metadata.
    fn default() -> (c: Self)
        ensures
            c@.commands == Seq::<CommandModel>::empty(),
            c@.api_version == "v1"@,
            c@.protocol == "http"@,
            c@.address == ":8080"@,
            c@.description == "Baitroute rules"@,
            c.wf(),
    {
        BeelzebubConfig {
            commands: Vec::new(),
            api_version: String::from_str("v1"),
            protocol: String::from_str("http"),
            address: String::from_str(":8080"),
            description: String::from_str("Baitroute rules"),
        }
    }
}

} // verus!
