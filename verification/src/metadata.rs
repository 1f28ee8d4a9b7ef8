//! Builders for capability metadata: tools, resources, prompts, and custom
//! endpoints. All of it is consumed at build time; the interesting contract
//! is `ToolMeta::to_tool`, which pins the generated input schema.

use vstd::prelude::*;
use vstd::string::*;

use crate::json::{jd_members, jd_seq, JsonData, JsonValue};
use crate::protocol::{Prompt, PromptArgument, Resource, Tool};

verus! {

broadcast use
    crate::json::lemma_jd_seq_index,
    crate::json::lemma_jd_seq_len,
    crate::json::lemma_jd_members_index,
    crate::json::lemma_jd_members_len,
    vstd::std_specs::vec::group_vec_axioms,
;

/// One declared tool parameter: name, JSON-schema type, description.
#[derive(Debug, Clone, PartialEq, Eq)]
pub struct ParamMeta {
    pub name: String,
    pub param_type: String,
    pub description: String,
}

/// Metadata builder for tools.
#[derive(Debug, Clone, PartialEq, Eq)]
pub struct ToolMeta {
    pub description: Option<String>,
    pub params: Vec<ParamMeta>,
    pub required: Vec<String>,
}

/// The schema fragment of one declared parameter.
pub open spec fn param_schema(p: ParamMeta) -> JsonData {
    JsonData::Obj(
        seq![
            ("type"@, JsonData::Str(p.param_type@)),
            ("description"@, JsonData::Str(p.description@)),
        ],
    )
}

/// The input schema `to_tool` generates: an object schema whose
/// `properties` lists the declared parameters in declaration order, with a
/// `required` list exactly when at least one field was marked required.
pub open spec fn tool_meta_schema(m: ToolMeta) -> JsonData {
    let base = seq![
        ("type"@, JsonData::Str("object"@)),
        (
            "properties"@,
            JsonData::Obj(
                Seq::new(m.params@.len(), |i: int| (m.params@[i].name@, param_schema(m.params@[i]))),
            ),
        ),
    ];
    if m.required@.len() == 0 {
        JsonData::Obj(base)
    } else {
        JsonData::Obj(
            base.push(
                (
                    "required"@,
                    JsonData::Arr(
                        Seq::new(m.required@.len(), |i: int| JsonData::Str(m.required@[i]@)),
                    ),
                ),
            ),
        )
    }
}

impl ToolMeta {
    /// An empty builder: no description, no parameters, nothing required.
    pub fn new() -> (r: Self)
        ensures
            r.description is None,
            r.params@.len() == 0,
            r.required@.len() == 0,
    {
        ToolMeta { description: None, params: Vec::new(), required: Vec::new() }
    }

    /// Sets the human description.
    pub fn description(self, desc: &str) -> (r: Self)
        ensures
            r.description matches Some(d) && d@ == desc@,
            r.params == self.params,
            r.required == self.required,
    {
        ToolMeta { description: Some(desc.to_owned()), ..self }
    }

    /// Declares one parameter.
    pub fn param(self, name: &str, param_type: &str, description: &str) -> (r: Self)
        ensures
            r.description == self.description,
            r.required == self.required,
            r.params@.len() == self.params@.len() + 1,
            r.params@.drop_last() == self.params@,
            r.params@.last().name@ == name@,
            r.params@.last().param_type@ == param_type@,
            r.params@.last().description@ == description@,
    {
        let mut params = self.params;
        params.push(
            ParamMeta {
                name: name.to_owned(),
                param_type: param_type.to_owned(),
                description: description.to_owned(),
            },
        );
        proof {
            assert(params@.drop_last() =~= self.params@) by {
                assert(params@.len() == self.params@.len() + 1);
            }
        }
        ToolMeta { params, ..self }
    }

    /// Replaces the required-field list.
    pub fn required(self, fields: &[&str]) -> (r: Self)
        ensures
            r.description == self.description,
            r.params == self.params,
            r.required@.len() == fields@.len(),
            forall|i: int| 0 <= i < fields@.len() ==> (#[trigger] r.required@[i])@ == fields@[i]@,
    {
        let mut required: Vec<String> = Vec::new();
        let n = fields.len();
        for i in 0..n
            invariant
                n == fields@.len(),
                required@.len() == i,
                forall|k: int|
                    0 <= k < i ==> (#[trigger] required@[k])@ == fields@[k]@,
            decreases n - i,
        {
            required.push(fields[i].to_owned());
        }
        ToolMeta { required, ..self }
    }

    /// The tool this builder describes, under the given name.
    #[verifier::loop_isolation(false)]
    pub fn to_tool(&self, name: &str) -> (r: Tool)
        ensures
            r.name@ == name@,
            r.description.deep_view() == self.description.deep_view(),
            r.input_schema@ == tool_meta_schema(*self),
    {
        let mut properties: Vec<(String, JsonValue)> = Vec::new();
        let n = self.params.len();
        for i in 0..n
            invariant
                n == self.params@.len(),
                properties@.len() == i,
                forall|k: int|
                    0 <= k < i ==> (#[trigger] properties@[k]).0@ == self.params@[k].name@
                        && properties@[k].1@ == param_schema(self.params@[k]),
            decreases n - i,
        {
            let p = &self.params[i];
            let mut inner: Vec<(String, JsonValue)> = Vec::new();
            inner.push(("type".to_owned(), JsonValue::Str(p.param_type.clone())));
            inner.push(("description".to_owned(), JsonValue::Str(p.description.clone())));
            let schema = JsonValue::Object(inner);
            proof {
                assert(jd_members(schema->Object_0@) =~= param_schema(self.params@[i as int])
                    ->Obj_0);
            }
            properties.push((p.name.clone(), schema));
        }
        let mut members: Vec<(String, JsonValue)> = Vec::new();
        members.push(("type".to_owned(), JsonValue::Str("object".to_owned())));
        members.push(("properties".to_owned(), JsonValue::Object(properties)));
        if self.required.len() > 0 {
            let mut names: Vec<JsonValue> = Vec::new();
            let m = self.required.len();
            for i in 0..m
                invariant
                    m == self.required@.len(),
                    names@.len() == i,
                    forall|k: int|
                        0 <= k < i ==> (#[trigger] names@[k])@ == JsonData::Str(
                            self.required@[k]@,
                        ),
                decreases m - i,
            {
                names.push(JsonValue::Str(self.required[i].clone()));
            }
            proof {
                assert(jd_seq(names@) =~= Seq::new(
                    self.required@.len(),
                    |i: int| JsonData::Str(self.required@[i]@),
                ));
            }
            members.push(("required".to_owned(), JsonValue::Array(names)));
        }
        let schema = JsonValue::Object(members);
        proof {
            assert(jd_members(properties@) =~= Seq::new(
                self.params@.len(),
                |i: int| (self.params@[i].name@, param_schema(self.params@[i])),
            ));
            assert(jd_members(schema->Object_0@) =~= tool_meta_schema(*self)->Obj_0);
        }
        Tool {
            name: name.to_owned(),
            description: match &self.description {
                Some(d) => Some(d.clone()),
                None => None,
            },
            input_schema: schema,
        }
    }
}

impl Default for ToolMeta {
    /// The empty builder.
    fn default() -> (r: Self)
        ensures
            r.description is None,
            r.params@.len() == 0,
            r.required@.len() == 0,
    {
        ToolMeta::new()
    }
}

/// Metadata builder for resources.
#[derive(Debug, Clone, PartialEq, Eq)]
pub struct ResourceMeta {
    pub name: String,
    pub description: Option<String>,
    pub mime_type: Option<String>,
}

impl ResourceMeta {
    /// An empty builder.
    pub fn new() -> (r: Self)
        ensures
            r.name@ == Seq::<char>::empty(),
            r.description is None,
            r.mime_type is None,
    {
        let r = ResourceMeta { name: String::new(), description: None, mime_type: None };
        r
    }

    /// Sets the display name.
    pub fn name(self, name: &str) -> (r: Self)
        ensures
            r.name@ == name@,
            r.description == self.description,
            r.mime_type == self.mime_type,
    {
        ResourceMeta { name: name.to_owned(), ..self }
    }

    /// Sets the human description.
    pub fn description(self, desc: &str) -> (r: Self)
        ensures
            r.name == self.name,
            r.description matches Some(d) && d@ == desc@,
            r.mime_type == self.mime_type,
    {
        ResourceMeta { description: Some(desc.to_owned()), ..self }
    }

    /// Sets the MIME type.
    pub fn mime_type(self, mime: &str) -> (r: Self)
        ensures
            r.name == self.name,
            r.description == self.description,
            r.mime_type matches Some(m) && m@ == mime@,
    {
        ResourceMeta { mime_type: Some(mime.to_owned()), ..self }
    }

    /// The resource descriptor this builder describes, under the given URI.
    pub fn to_resource(&self, uri: &str) -> (r: Resource)
        ensures
            r.uri@ == uri@,
            r.name@ == self.name@,
            r.description.deep_view() == self.description.deep_view(),
            r.mime_type.deep_view() == self.mime_type.deep_view(),
    {
        Resource {
            uri: uri.to_owned(),
            name: self.name.clone(),
            description: match &self.description {
                Some(d) => Some(d.clone()),
                None => None,
            },
            mime_type: match &self.mime_type {
                Some(m) => Some(m.clone()),
                None => None,
            },
        }
    }
}

impl Default for ResourceMeta {
    /// The empty builder.
    fn default() -> (r: Self)
        ensures
            r.name@ == Seq::<char>::empty(),
            r.description is None,
            r.mime_type is None,
    {
        ResourceMeta::new()
    }
}

/// One declared prompt argument, as the builder records it.
#[derive(Debug, Clone, PartialEq, Eq)]
pub struct PromptArgumentMeta {
    pub name: String,
    pub description: Option<String>,
    pub required: bool,
}

/// Metadata builder for prompts.
#[derive(Debug, Clone, PartialEq, Eq)]
pub struct PromptMeta {
    pub description: Option<String>,
    pub arguments: Vec<PromptArgumentMeta>,
}

impl PromptMeta {
    /// An empty builder.
    pub fn new() -> (r: Self)
        ensures
            r.description is None,
            r.arguments@.len() == 0,
    {
        PromptMeta { description: None, arguments: Vec::new() }
    }

    /// Sets the human description.
    pub fn description(self, desc: &str) -> (r: Self)
        ensures
            r.description matches Some(d) && d@ == desc@,
            r.arguments == self.arguments,
    {
        PromptMeta { description: Some(desc.to_owned()), ..self }
    }

    /// Declares one argument.
    pub fn arg(self, name: &str, description: &str, required: bool) -> (r: Self)
        ensures
            r.description == self.description,
            r.arguments@.len() == self.arguments@.len() + 1,
            r.arguments@.drop_last() == self.arguments@,
            r.arguments@.last().name@ == name@,
            r.arguments@.last().description matches Some(d) && d@ == description@,
            r.arguments@.last().required == required,
    {
        let mut arguments = self.arguments;
        arguments.push(
            PromptArgumentMeta {
                name: name.to_owned(),
                description: Some(description.to_owned()),
                required,
            },
        );
        proof {
            assert(arguments@.drop_last() =~= self.arguments@) by {
                assert(arguments@.len() == self.arguments@.len() + 1);
            }
        }
        PromptMeta { arguments, ..self }
    }

    /// The prompt this builder describes, under the given name: the argument
    /// list is present exactly when at least one argument was declared.
    #[verifier::loop_isolation(false)]
    pub fn to_prompt(&self, name: &str) -> (r: Prompt)
        ensures
            r.name@ == name@,
            r.description.deep_view() == self.description.deep_view(),
            self.arguments@.len() == 0 ==> r.arguments is None,
            self.arguments@.len() > 0 ==> (r.arguments matches Some(args) && args@.len()
                == self.arguments@.len() && forall|i: int|
                0 <= i < args@.len() ==> (#[trigger] args@[i]).name@ == self.arguments@[i].name@
                    && args@[i].description.deep_view()
                    == self.arguments@[i].description.deep_view() && args@[i].required
                    == Some(self.arguments@[i].required)),
    {
        let arguments: Option<Vec<PromptArgument>> = if self.arguments.len() == 0 {
            None
        } else {
            let mut args: Vec<PromptArgument> = Vec::new();
            let n = self.arguments.len();
            for i in 0..n
                invariant
                    n == self.arguments@.len(),
                    args@.len() == i,
                    forall|k: int|
                        0 <= k < i ==> (#[trigger] args@[k]).name@ == self.arguments@[k].name@
                            && args@[k].description.deep_view()
                            == self.arguments@[k].description.deep_view() && args@[k].required
                            == Some(self.arguments@[k].required),
                decreases n - i,
            {
                let a = &self.arguments[i];
                args.push(
                    PromptArgument {
                        name: a.name.clone(),
                        description: match &a.description {
                            Some(d) => Some(d.clone()),
                            None => None,
                        },
                        required: Some(a.required),
                    },
                );
            }
            Some(args)
        };
        Prompt {
            name: name.to_owned(),
            description: match &self.description {
                Some(d) => Some(d.clone()),
                None => None,
            },
            arguments,
        }
    }
}

impl Default for PromptMeta {
    /// The empty builder.
    fn default() -> (r: Self)
        ensures
            r.description is None,
            r.arguments@.len() == 0,
    {
        PromptMeta::new()
    }
}

/// Metadata builder for custom HTTP endpoints (served by the embedding
/// application, outside the protocol endpoint).
#[derive(Debug, Clone, PartialEq, Eq)]
pub struct EndpointMeta {
    pub route: String,
    pub method: String,
    pub description: Option<String>,
}

impl EndpointMeta {
    /// An empty builder: no route, method GET, no description.
    pub fn new() -> (r: Self)
        ensures
            r.route@ == Seq::<char>::empty(),
            r.method@ == "GET"@,
            r.description is None,
    {
        EndpointMeta { route: String::new(), method: "GET".to_owned(), description: None }
    }

    /// Sets the route path.
    pub fn route(self, route: &str) -> (r: Self)
        ensures
            r.route@ == route@,
            r.method == self.method,
            r.description == self.description,
    {
        EndpointMeta { route: route.to_owned(), ..self }
    }

    /// Sets the HTTP method.
    pub fn method(self, method: &str) -> (r: Self)
        ensures
            r.route == self.route,
            r.method@ == method@,
            r.description == self.description,
    {
        EndpointMeta { method: method.to_owned(), ..self }
    }

    /// Sets the human description.
    pub fn description(self, desc: &str) -> (r: Self)
        ensures
            r.route == self.route,
            r.method == self.method,
            r.description matches Some(d) && d@ == desc@,
    {
        EndpointMeta { description: Some(desc.to_owned()), ..self }
    }

    /// The route path.
    pub fn get_route(&self) -> (r: &str)
        ensures
            r@ == self.route@,
    {
        self.route.as_str()
    }

    /// The HTTP method.
    pub fn get_method(&self) -> (r: &str)
        ensures
            r@ == self.method@,
    {
        self.method.as_str()
    }

    /// The description, when one was set.
    pub fn get_description(&self) -> (r: Option<&str>)
        ensures
            match r {
                Some(d) => self.description matches Some(s) && d@ == s@,
                None => self.description is None,
            },
    {
        match &self.description {
            Some(d) => Some(d.as_str()),
            None => None,
        }
    }
}

impl Default for EndpointMeta {
    /// The empty builder.
    fn default() -> (r: Self)
        ensures
            r.route@ == Seq::<char>::empty(),
            r.method@ == "GET"@,
            r.description is None,
    {
        EndpointMeta::new()
    }
}

} // verus!
