//! A request as plain data: the method, the path below the API root, the
//! query parameters and, for requests that carry one, the JSON body. Only the
//! parameters that a caller set appear; an unset parameter is absent, never
//! null.
use vstd::prelude::*;

verus! {

/// The HTTP method of a request.
#[derive(Clone, Copy, Debug, PartialEq, Eq, Structural)]
pub enum Method {
    Get,
    Post,
    Patch,
    Delete,
}

/// A named parameter of a query string or of a JSON body.
#[derive(Clone, Copy, Debug, PartialEq, Eq, Structural)]
pub enum Param {
    TagName,
    TargetCommitish,
    Name,
    Body,
    Draft,
    Prerelease,
    MakeLatest,
    PreviousTagName,
    ConfigurationFilePath,
    PerPage,
    Page,
}

impl Param {
    /// The key under which the parameter is sent.
    pub fn key(&self) -> (r: &'static str)
        ensures
            *self == Param::TagName ==> r@ == "tag_name"@,
            *self == Param::TargetCommitish ==> r@ == "target_commitish"@,
            *self == Param::Name ==> r@ == "name"@,
            *self == Param::Body ==> r@ == "body"@,
            *self == Param::Draft ==> r@ == "draft"@,
            *self == Param::Prerelease ==> r@ == "prerelease"@,
            *self == Param::MakeLatest ==> r@ == "make_latest"@,
            *self == Param::PreviousTagName ==> r@ == "previous_tag_name"@,
            *self == Param::ConfigurationFilePath ==> r@ == "configuration_file_path"@,
            *self == Param::PerPage ==> r@ == "per_page"@,
            *self == Param::Page ==> r@ == "page"@,
    {
        match self {
            Param::TagName => "tag_name",
            Param::TargetCommitish => "target_commitish",
            Param::Name => "name",
            Param::Body => "body",
            Param::Draft => "draft",
            Param::Prerelease => "prerelease",
            Param::MakeLatest => "make_latest",
            Param::PreviousTagName => "previous_tag_name",
            Param::ConfigurationFilePath => "configuration_file_path",
            Param::PerPage => "per_page",
            Param::Page => "page",
        }
    }
}

/// The value of a parameter: a JSON string, a JSON boolean or a number.
#[derive(Clone, Debug)]
pub enum Value {
    Text(String),
    Flag(bool),
    Number(u64),
}

/// What a `Value` holds, as mathematical values.
pub enum ValueModel {
    Text(Seq<char>),
    Flag(bool),
    Number(nat),
}

impl View for Value {
    type V = ValueModel;

    open spec fn view(&self) -> ValueModel {
        match self {
            Value::Text(s) => ValueModel::Text(s@),
            Value::Flag(b) => ValueModel::Flag(*b),
            Value::Number(n) => ValueModel::Number(*n as nat),
        }
    }
}

/// One parameter and its value.
#[derive(Clone, Debug)]
pub struct Field {
    pub param: Param,
    pub value: Value,
}

impl View for Field {
    type V = (Param, ValueModel);

    open spec fn view(&self) -> (Param, ValueModel) {
        (self.param, self.value@)
    }
}

/// The parameters of a sequence of fields, with their values, in order.
pub open spec fn fields_view(v: Seq<Field>) -> Seq<(Param, ValueModel)> {
    v.map_values(|f: Field| f@)
}

/// The single field `p` when a value is present, and nothing otherwise.
pub open spec fn field(p: Param, v: Option<ValueModel>) -> Seq<(Param, ValueModel)> {
    match v {
        Some(x) => seq![(p, x)],
        None => Seq::empty(),
    }
}

pub open spec fn text_of(o: Option<String>) -> Option<ValueModel> {
    match o {
        Some(s) => Some(ValueModel::Text(s@)),
        None => None,
    }
}

pub open spec fn flag_of(o: Option<bool>) -> Option<ValueModel> {
    match o {
        Some(b) => Some(ValueModel::Flag(b)),
        None => None,
    }
}

pub open spec fn number_of(o: Option<u32>) -> Option<ValueModel> {
    match o {
        Some(n) => Some(ValueModel::Number(n as nat)),
        None => None,
    }
}

pub open spec fn small_number_of(o: Option<u8>) -> Option<ValueModel> {
    match o {
        Some(n) => Some(ValueModel::Number(n as nat)),
        None => None,
    }
}

pub open spec fn value_of(o: Option<Value>) -> Option<ValueModel> {
    match o {
        Some(v) => Some(v@),
        None => None,
    }
}

/// The parameters that occur in a sequence of fields.
pub open spec fn params_of(s: Seq<(Param, ValueModel)>) -> Set<Param> {
    Set::new(|p: Param| exists|i: int| 0 <= i < s.len() && #[trigger] s[i].0 == p)
}

/// The parameter `p` alone when a value is present, and no parameter
/// otherwise.
pub open spec fn present(p: Param, v: Option<ValueModel>) -> Set<Param> {
    if v is Some {
        set![p]
    } else {
        Set::empty()
    }
}

/// The parameters of two sequences of fields put together are those of each.
pub proof fn lemma_params_concat(a: Seq<(Param, ValueModel)>, b: Seq<(Param, ValueModel)>)
    ensures
        params_of(a + b) == params_of(a).union(params_of(b)),
{
    let ab = a + b;
    assert forall|p: Param| params_of(ab).contains(p) <==> params_of(a).union(params_of(b)).contains(p) by {
        if params_of(ab).contains(p) {
            let i = choose|i: int| 0 <= i < ab.len() && #[trigger] ab[i].0 == p;
            if i < a.len() {
                assert(a[i].0 == p);
            } else {
                assert(b[i - a.len()].0 == p);
            }
        }
        if params_of(a).contains(p) {
            let i = choose|i: int| 0 <= i < a.len() && #[trigger] a[i].0 == p;
            assert(ab[i].0 == p);
        }
        if params_of(b).contains(p) {
            let i = choose|i: int| 0 <= i < b.len() && #[trigger] b[i].0 == p;
            assert(ab[i + a.len()].0 == p);
        }
    }
    assert(params_of(ab) =~= params_of(a).union(params_of(b)));
}

/// A field that is present holds its parameter; an absent one holds none.
pub proof fn lemma_params_field(p: Param, v: Option<ValueModel>)
    ensures
        params_of(field(p, v)) == present(p, v),
{
    if v is Some {
        assert(field(p, v)[0].0 == p);
    }
    assert(params_of(field(p, v)) =~= present(p, v));
}

/// A request to be issued, as plain data.
#[derive(Clone, Debug)]
pub struct Request {
    pub method: Method,
    pub path: String,
    pub query: Vec<Field>,
    pub body: Option<Vec<Field>>,
}

/// What a `Request` holds, as mathematical values.
pub struct RequestModel {
    pub method: Method,
    pub path: Seq<char>,
    pub query: Seq<(Param, ValueModel)>,
    pub body: Option<Seq<(Param, ValueModel)>>,
}

impl View for Request {
    type V = RequestModel;

    open spec fn view(&self) -> RequestModel {
        RequestModel {
            method: self.method,
            path: self.path@,
            query: fields_view(self.query@),
            body: match self.body {
                Some(b) => Some(fields_view(b@)),
                None => None,
            },
        }
    }
}

/// Appends the field `p` to `v` when a value is present.
pub fn push_field(v: &mut Vec<Field>, p: Param, value: Option<Value>)
    ensures
        fields_view(final(v)@) == fields_view(old(v)@) + field(p, value_of(value)),
{
    match value {
        Some(x) => {
            let ghost before = v@;
            v.push(Field { param: p, value: x });
            assert(fields_view(v@) =~= fields_view(before) + field(p, value_of(value)));
        },
        None => {
            assert(fields_view(v@) =~= fields_view(v@) + field(p, value_of(value)));
        },
    }
}

/// A text value holding a copy of `o`, when it is present.
pub fn text_value(o: &Option<String>) -> (r: Option<Value>)
    ensures
        value_of(r) == text_of(*o),
{
    match o {
        Some(s) => Some(Value::Text(s.clone())),
        None => None,
    }
}

/// A boolean value holding `o`, when it is present.
pub fn flag_value(o: Option<bool>) -> (r: Option<Value>)
    ensures
        value_of(r) == flag_of(o),
{
    match o {
        Some(b) => Some(Value::Flag(b)),
        None => None,
    }
}

/// A numeric value holding `o`, when it is present.
pub fn number_value(o: Option<u32>) -> (r: Option<Value>)
    ensures
        value_of(r) == number_of(o),
{
    match o {
        Some(n) => Some(Value::Number(n as u64)),
        None => None,
    }
}

/// A numeric value holding `o`, when it is present.
pub fn small_number_value(o: Option<u8>) -> (r: Option<Value>)
    ensures
        value_of(r) == small_number_of(o),
{
    match o {
        Some(n) => Some(Value::Number(n as u64)),
        None => None,
    }
}

} // verus!
