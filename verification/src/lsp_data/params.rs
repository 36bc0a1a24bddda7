//! The parameters of `initialize`, and how they are read from JSON.

use crate::decimal::parse_u64;
use crate::json::{object, push_member, string, Entry, Json, JsonValue, Member};
use crate::jsonrpc::number_json;
use crate::lsp_data::InitializationOptions;
use crate::uri::scheme;
use vstd::prelude::*;

verus! {

/// What the client sends with `initialize`, as far as the server reads it.
#[derive(Debug, PartialEq)]
pub struct InitializeParams {
    /// The process id of the parent process that started the server.
    pub process_id: Option<u64>,
    /// The root path of the workspace; `root_uri` is preferred.
    pub root_path: Option<String>,
    /// The root URI of the workspace, which is the text of a URL.
    pub root_uri: Option<String>,
    /// User provided initialization options.
    pub initialization_options: Option<JsonValue>,
}

/// What [`InitializeParams`] say.
pub struct InitializeParamsView {
    pub process_id: Option<u64>,
    pub root_path: Option<Seq<char>>,
    pub root_uri: Option<Seq<char>>,
    pub initialization_options: Option<Json>,
}

/// The characters of a string that may be missing.
pub open spec fn text_view(text: Option<String>) -> Option<Seq<char>> {
    match text {
        Some(text) => Some(text@),
        None => None,
    }
}

impl View for InitializeParams {
    type V = InitializeParamsView;

    open spec fn view(&self) -> InitializeParamsView {
        InitializeParamsView {
            process_id: self.process_id,
            root_path: text_view(self.root_path),
            root_uri: text_view(self.root_uri),
            initialization_options: crate::json::option_view(self.initialization_options),
        }
    }
}

/// A member that may hold a whole number: none, or `null`, stand for no
/// number; anything but a number of 64 bits is refused (`None`).
pub open spec fn number_member(member: Option<Json>) -> Option<Option<u64>> {
    match member {
        None => Some(None),
        Some(Json::Null) => Some(None),
        Some(Json::Number(n)) => match crate::decimal::decimal_up_to(n, u64::MAX as nat) {
            Some(v) => Some(Some(v as u64)),
            None => None,
        },
        Some(_) => None,
    }
}

/// A member that may hold a string: none, or `null`, stand for no string;
/// anything but a string is refused (`None`).
pub open spec fn text_member(member: Option<Json>) -> Option<Option<Seq<char>>> {
    match member {
        None => Some(None),
        Some(Json::Null) => Some(None),
        Some(Json::String(s)) => Some(Some(s)),
        Some(_) => None,
    }
}

/// A member that may hold a URI: as `text_member`, and a string that is no
/// URL is refused too.
pub open spec fn uri_member(member: Option<Json>) -> Option<Option<Seq<char>>> {
    match text_member(member) {
        Some(Some(s)) => if crate::uri::scheme_of(s) is Some {
            Some(Some(s))
        } else {
            None
        },
        other => other,
    }
}

/// A member that may hold anything: none, or `null`, stand for nothing.
pub open spec fn any_member(member: Option<Json>) -> Option<Json> {
    match member {
        None => None,
        Some(Json::Null) => None,
        Some(value) => Some(value),
    }
}

impl InitializeParamsView {
    /// The parameters that a JSON value holds: an object whose members
    /// `processId`, `rootPath`, `rootUri` and `initializationOptions`, as far
    /// as it has them, are of the right kind.
    pub open spec fn of_json(value: Json) -> Option<InitializeParamsView> {
        if !(value is Object) {
            None
        } else {
            match (
                number_member(value.member("processId"@)),
                text_member(value.member("rootPath"@)),
                uri_member(value.member("rootUri"@)),
            ) {
                (Some(process_id), Some(root_path), Some(root_uri)) => Some(
                    InitializeParamsView {
                        process_id,
                        root_path,
                        root_uri,
                        initialization_options: any_member(
                            value.member("initializationOptions"@),
                        ),
                    },
                ),
                _ => None,
            }
        }
    }

    pub open spec fn process_id_json(self) -> Json {
        match self.process_id {
            Some(n) => Json::Number(crate::jsonrpc::numeral(n as nat)),
            None => Json::Null,
        }
    }

    pub open spec fn root_path_json(self) -> Json {
        match self.root_path {
            Some(s) => Json::String(s),
            None => Json::Null,
        }
    }

    pub open spec fn root_uri_json(self) -> Json {
        match self.root_uri {
            Some(s) => Json::String(s),
            None => Json::Null,
        }
    }

    pub open spec fn options_json(self) -> Json {
        match self.initialization_options {
            Some(v) => v,
            None => Json::Null,
        }
    }

    /// The JSON object that stands for the parameters: every member, `null`
    /// where the parameters have nothing for it.
    pub open spec fn json_of(self) -> Json {
        Json::Object(
            seq![
                Entry { key: "processId"@, value: self.process_id_json() },
                Entry { key: "rootPath"@, value: self.root_path_json() },
                Entry { key: "rootUri"@, value: self.root_uri_json() },
                Entry { key: "initializationOptions"@, value: self.options_json() },
            ],
        )
    }
}

/// Parameters that are written as JSON are read back as they were, where
/// their root URI, if they have one, is a URL, and their options, if they
/// have any, are not `null`.
pub proof fn lemma_params_read_back(params: InitializeParamsView)
    requires
        params.root_uri matches Some(uri) ==> crate::uri::scheme_of(uri) is Some,
        params.initialization_options != Some(Json::Null),
    ensures
        InitializeParamsView::of_json(params.json_of()) == Some(params),
{
    reveal_strlit("processId");
    reveal_strlit("rootPath");
    reveal_strlit("rootUri");
    reveal_strlit("initializationOptions");
    let json = params.json_of();
    let members = json->Object_0;
    crate::json::lemma_first_from(members, "processId"@, 0);
    crate::json::lemma_first_from(members, "rootPath"@, 0);
    crate::json::lemma_first_from(members, "rootUri"@, 0);
    crate::json::lemma_first_from(members, "initializationOptions"@, 0);
    assert("processId"@.len() == 9 && "rootPath"@.len() == 8 && "rootUri"@.len() == 7
        && "initializationOptions"@.len() == 21);
    assert(json.member("processId"@) == Some(params.process_id_json()));
    assert(json.member("rootPath"@) == Some(params.root_path_json()));
    assert(json.member("rootUri"@) == Some(params.root_uri_json()));
    assert(json.member("initializationOptions"@) == Some(params.options_json()));
    match params.process_id {
        Some(n) => {
            crate::jsonrpc::lemma_numeral_read_back(n as nat);
        },
        None => {},
    }
}

fn read_number(member: Option<&JsonValue>) -> (r: Option<Option<u64>>)
    ensures
        r == number_member(member_view(member)),
{
    match member {
        None => Some(None),
        Some(JsonValue::Null) => Some(None),
        Some(JsonValue::Number(n)) => match parse_u64(n.as_str()) {
            Some(v) => Some(Some(v)),
            None => None,
        },
        Some(_) => None,
    }
}

fn read_text(member: Option<&JsonValue>) -> (r: Option<Option<String>>)
    ensures
        match r {
            Some(text) => text_member(member_view(member)) == Some(text_view(text)),
            None => text_member(member_view(member)) is None,
        },
{
    match member {
        None => Some(None),
        Some(JsonValue::Null) => Some(None),
        Some(JsonValue::String(s)) => Some(Some(s.clone())),
        Some(_) => None,
    }
}

fn read_uri(member: Option<&JsonValue>) -> (r: Option<Option<String>>)
    ensures
        match r {
            Some(text) => uri_member(member_view(member)) == Some(text_view(text)),
            None => uri_member(member_view(member)) is None,
        },
{
    match read_text(member) {
        Some(Some(s)) => match scheme(s.as_str()) {
            Some(_) => Some(Some(s)),
            None => None,
        },
        other => other,
    }
}

fn read_any(member: Option<&JsonValue>) -> (r: Option<JsonValue>)
    ensures
        crate::json::option_view(r) == any_member(member_view(member)),
{
    match member {
        None => None,
        Some(JsonValue::Null) => None,
        Some(value) => Some(value.duplicate()),
    }
}

/// The tree of a member that was looked up.
pub open spec fn member_view(member: Option<&JsonValue>) -> Option<Json> {
    match member {
        Some(value) => Some(value@),
        None => None,
    }
}

impl InitializeParams {
    /// Reads the parameters that a JSON value holds.
    pub fn from_json(value: &JsonValue) -> (r: Option<InitializeParams>)
        ensures
            match r {
                Some(p) => InitializeParamsView::of_json(value@) == Some(p@),
                None => InitializeParamsView::of_json(value@) is None,
            },
    {
        match value {
            JsonValue::Object(_) => {},
            _ => { return None; },
        }
        let process_id = match read_number(value.get("processId")) {
            Some(v) => v,
            None => { return None; },
        };
        let root_path = match read_text(value.get("rootPath")) {
            Some(v) => v,
            None => { return None; },
        };
        let root_uri = match read_uri(value.get("rootUri")) {
            Some(v) => v,
            None => { return None; },
        };
        let initialization_options = read_any(value.get("initializationOptions"));
        Some(InitializeParams { process_id, root_path, root_uri, initialization_options })
    }

    /// These parameters as a JSON value.
    pub fn to_json(&self) -> (r: JsonValue)
        ensures
            r@ == self@.json_of(),
    {
        let mut members: Vec<Member> = Vec::new();
        assert(crate::json::members_view(members@) =~= Seq::empty());
        let process_id = match self.process_id {
            Some(n) => number_json(n),
            None => JsonValue::Null,
        };
        push_member(&mut members, "processId", process_id);
        let root_path = match &self.root_path {
            Some(s) => string(s.as_str()),
            None => JsonValue::Null,
        };
        push_member(&mut members, "rootPath", root_path);
        let root_uri = match &self.root_uri {
            Some(s) => string(s.as_str()),
            None => JsonValue::Null,
        };
        push_member(&mut members, "rootUri", root_uri);
        let options = match &self.initialization_options {
            Some(v) => v.duplicate(),
            None => JsonValue::Null,
        };
        push_member(&mut members, "initializationOptions", options);
        assert(crate::json::members_view(members@) =~= self@.json_of()->Object_0);
        object(members)
    }
}

impl InitializationOptions {
    /// The options that a JSON value holds. An object gives them by name:
    /// `omitInitBuild`, a boolean, false where it is missing. An array gives
    /// them by place: at most one item, a boolean. Anything else holds none.
    pub open spec fn of_json(value: Json) -> Option<InitializationOptions> {
        match value {
            Json::Object(_) => match value.member("omitInitBuild"@) {
                None => Some(InitializationOptions { omit_init_build: false }),
                Some(Json::Bool(b)) => Some(InitializationOptions { omit_init_build: b }),
                Some(_) => None,
            },
            Json::Array(items) => if items.len() == 0 {
                Some(InitializationOptions { omit_init_build: false })
            } else if items.len() == 1 {
                match items[0] {
                    Json::Bool(b) => Some(InitializationOptions { omit_init_build: b }),
                    _ => None,
                }
            } else {
                None
            },
            _ => None,
        }
    }

    /// The options that the client's `initializationOptions` give: those
    /// that the value holds, and the default where there is no value or it
    /// holds none.
    pub open spec fn chosen(value: Option<Json>) -> InitializationOptions {
        match value {
            Some(value) => match InitializationOptions::of_json(value) {
                Some(options) => options,
                None => InitializationOptions { omit_init_build: false },
            },
            None => InitializationOptions { omit_init_build: false },
        }
    }

    /// Reads the options that a JSON value holds.
    pub fn from_json(value: &JsonValue) -> (r: Option<InitializationOptions>)
        ensures
            r == InitializationOptions::of_json(value@),
    {
        match value {
            JsonValue::Object(_) => match value.get("omitInitBuild") {
                None => Some(InitializationOptions { omit_init_build: false }),
                Some(JsonValue::Bool(b)) => Some(InitializationOptions { omit_init_build: *b }),
                Some(_) => None,
            },
            JsonValue::Array(items) => {
                proof {
                    crate::json::lemma_array_view(*items);
                }
                if items.len() == 0 {
                    Some(InitializationOptions { omit_init_build: false })
                } else if items.len() == 1 {
                    match &items[0] {
                        JsonValue::Bool(b) => Some(InitializationOptions { omit_init_build: *b }),
                        _ => None,
                    }
                } else {
                    None
                }
            },
            _ => None,
        }
    }
}

} // verus!
