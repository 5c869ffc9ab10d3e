//! Values shared by the catalog's components: dynamic strings, child lists,
//! accessibility attributes and numbers.
use vstd::prelude::*;
use vstd::string::StringExecFns;

verus! {

/// A component id: unique within a surface.
pub type ComponentId = String;

/// The view of every string the catalog carries.
pub open spec fn str_views(s: Seq<String>) -> Seq<Seq<char>> {
    s.map_values(|x: String| x@)
}

/// The view of an optional string.
pub open spec fn opt_str_view(o: Option<String>) -> Option<Seq<char>> {
    match o {
        Some(s) => Some(s@),
        None => None,
    }
}

/// The view of an optional list of strings.
pub open spec fn opt_strs_view(o: Option<Vec<String>>) -> Option<Seq<Seq<char>>> {
    match o {
        Some(v) => Some(str_views(v@)),
        None => None,
    }
}

/// A JSON number of the catalog: an unsigned integer, or the bit pattern of
/// an IEEE 754 binary64 value that the library carries without reading it.
#[derive(Debug, Clone, Copy, PartialEq, Eq, Structural)]
pub enum Number {
    Unsigned(u64),
    Binary64Bits(u64),
}

/// Accessibility attributes for assistive technologies.
#[derive(Debug, Default, PartialEq)]
pub struct AccessibilityAttributes {
    pub label: Option<DynamicString>,
    pub description: Option<DynamicString>,
}

pub struct AccessibilityAttributesView {
    pub label: Option<DynamicStringView>,
    pub description: Option<DynamicStringView>,
}

pub open spec fn opt_dynamic_view(o: Option<DynamicString>) -> Option<DynamicStringView> {
    match o {
        Some(d) => Some(d@),
        None => None,
    }
}

impl View for AccessibilityAttributes {
    type V = AccessibilityAttributesView;

    open spec fn view(&self) -> AccessibilityAttributesView {
        AccessibilityAttributesView {
            label: opt_dynamic_view(self.label),
            description: opt_dynamic_view(self.description),
        }
    }
}

pub open spec fn opt_accessibility_view(
    o: Option<AccessibilityAttributes>,
) -> Option<AccessibilityAttributesView> {
    match o {
        Some(a) => Some(a@),
        None => None,
    }
}

/// The children of a container: a static list of ids, or a template bound to
/// a data-model path.
#[derive(Debug, PartialEq)]
pub enum ChildList {
    Static(Vec<ComponentId>),
    Template(ChildListTemplate),
}

pub enum ChildListView {
    Static(Seq<Seq<char>>),
    Template(ChildListTemplateView),
}

impl View for ChildList {
    type V = ChildListView;

    open spec fn view(&self) -> ChildListView {
        match self {
            ChildList::Static(ids) => ChildListView::Static(str_views(ids@)),
            ChildList::Template(t) => ChildListView::Template(t@),
        }
    }
}

impl Default for ChildList {
    fn default() -> (r: Self)
        ensures
            r@ == ChildListView::Static(Seq::empty()),
    {
        proof {
            assert(str_views(Seq::<String>::empty()) =~= Seq::empty());
        }
        ChildList::Static(Vec::new())
    }
}

impl ChildList {
    /// A static child list holding `ids`, in order.
    pub fn from_ids(ids: Vec<ComponentId>) -> (r: Self)
        ensures
            r@ == ChildListView::Static(str_views(ids@)),
    {
        ChildList::Static(ids)
    }
}

/// A child list generated from a template component and a data-model path.
#[derive(Debug, PartialEq)]
pub struct ChildListTemplate {
    pub component_id: ComponentId,
    pub path: String,
}

pub struct ChildListTemplateView {
    pub component_id: Seq<char>,
    pub path: Seq<char>,
}

impl View for ChildListTemplate {
    type V = ChildListTemplateView;

    open spec fn view(&self) -> ChildListTemplateView {
        ChildListTemplateView { component_id: self.component_id@, path: self.path@ }
    }
}

/// A binding to a value in the surface's data model.
#[derive(Debug, PartialEq)]
pub struct DataBinding {
    pub path: String,
}

/// A call of a client-side function that yields a value; its arguments are
/// carried unchanged and stay outside its view.
#[derive(Debug, PartialEq)]
pub struct FunctionCall {
    pub call: String,
    pub args: Option<indexmap::IndexMap<String, serde_json::Value>>,
    pub return_type: Option<String>,
}

pub struct FunctionCallView {
    pub call: Seq<char>,
    pub return_type: Option<Seq<char>>,
}

impl View for FunctionCall {
    type V = FunctionCallView;

    open spec fn view(&self) -> FunctionCallView {
        FunctionCallView { call: self.call@, return_type: opt_str_view(self.return_type) }
    }
}

/// A string that is either given literally, bound to the data model, or
/// computed by a function call.
#[derive(Debug, PartialEq)]
pub enum DynamicString {
    Literal(String),
    Binding(DataBinding),
    Call(FunctionCall),
}

pub enum DynamicStringView {
    Literal(Seq<char>),
    Binding(Seq<char>),
    Call(FunctionCallView),
}

impl View for DynamicString {
    type V = DynamicStringView;

    open spec fn view(&self) -> DynamicStringView {
        match self {
            DynamicString::Literal(s) => DynamicStringView::Literal(s@),
            DynamicString::Binding(b) => DynamicStringView::Binding(b.path@),
            DynamicString::Call(c) => DynamicStringView::Call(c@),
        }
    }
}

impl Default for DynamicString {
    fn default() -> (r: Self)
        ensures
            r@ == DynamicStringView::Literal(Seq::empty()),
    {
        DynamicString::Literal(String::new())
    }
}

impl DynamicString {
    /// A literal dynamic string.
    pub fn literal(s: String) -> (r: Self)
        ensures
            r@ == DynamicStringView::Literal(s@),
    {
        DynamicString::Literal(s)
    }
}

impl From<String> for DynamicString {
    fn from(s: String) -> (r: Self) {
        DynamicString::Literal(s)
    }
}

impl From<&str> for DynamicString {
    fn from(s: &str) -> (r: Self)
        ensures
            r@ == DynamicStringView::Literal(s@),
    {
        DynamicString::Literal(String::from_str(s))
    }
}

impl vstd::std_specs::convert::FromSpecImpl<&str> for DynamicString {
    open spec fn obeys_from_spec() -> bool {
        false
    }

    open spec fn from_spec(s: &str) -> DynamicString {
        arbitrary()
    }
}

impl vstd::std_specs::convert::FromSpecImpl<String> for DynamicString {
    open spec fn obeys_from_spec() -> bool {
        true
    }

    open spec fn from_spec(s: String) -> DynamicString {
        DynamicString::Literal(s)
    }
}

/// A copy of an optional string.
pub fn clone_opt_string(o: &Option<String>) -> (r: Option<String>)
    ensures
        opt_str_view(r) == opt_str_view(*o),
{
    match o {
        Some(s) => Some(s.clone()),
        None => None,
    }
}

/// A copy of a list of strings.
pub fn clone_strings(v: &[String]) -> (r: Vec<String>)
    ensures
        str_views(r@) == str_views(v@),
{
    let mut out: Vec<String> = Vec::new();
    let n = v.len();
    let mut i: usize = 0;
    while i < n
        invariant
            n == v@.len(),
            i <= n,
            str_views(out@) =~= str_views(v@.take(i as int)),
        decreases n - i,
    {
        let ghost before = out@;
        let c = v[i].clone();
        out.push(c);
        proof {
            assert(v@.take(i + 1) =~= v@.take(i as int).push(v@[i as int]));
            assert(str_views(out@) =~= str_views(before).push(c@));
            assert(str_views(v@.take(i + 1)) =~= str_views(v@.take(i as int)).push(v@[i as int]@));
        }
        i = i + 1;
    }
    proof {
        assert(v@.take(n as int) =~= v@);
    }
    out
}

/// A copy of an optional list of strings.
pub fn clone_opt_strings(o: &Option<Vec<String>>) -> (r: Option<Vec<String>>)
    ensures
        opt_strs_view(r) == opt_strs_view(*o),
{
    match o {
        Some(v) => Some(clone_strings(v)),
        None => None,
    }
}

/// Calls `Clone::clone` of `IndexMap`, which copies a function call's
/// arguments; nothing is stated of the copy, which stays outside every view.
#[verifier::external_body]
fn clone_args(
    a: &Option<indexmap::IndexMap<String, serde_json::Value>>,
) -> Option<indexmap::IndexMap<String, serde_json::Value>> {
    a.clone()
}

impl Clone for AccessibilityAttributes {
    fn clone(&self) -> (r: Self)
        ensures
            r@ == self@,
    {
        AccessibilityAttributes {
            label: clone_opt_dynamic(&self.label),
            description: clone_opt_dynamic(&self.description),
        }
    }
}

/// A copy of optional accessibility attributes.
pub fn clone_opt_accessibility(o: &Option<AccessibilityAttributes>) -> (r: Option<AccessibilityAttributes>)
    ensures
        opt_accessibility_view(r) == opt_accessibility_view(*o),
{
    match o {
        Some(a) => Some(a.clone()),
        None => None,
    }
}

fn clone_opt_dynamic(o: &Option<DynamicString>) -> (r: Option<DynamicString>)
    ensures
        opt_dynamic_view(r) == opt_dynamic_view(*o),
{
    match o {
        Some(d) => Some(d.clone()),
        None => None,
    }
}

impl Clone for ChildListTemplate {
    fn clone(&self) -> (r: Self)
        ensures
            r@ == self@,
    {
        ChildListTemplate { component_id: self.component_id.clone(), path: self.path.clone() }
    }
}

impl Clone for ChildList {
    fn clone(&self) -> (r: Self)
        ensures
            r@ == self@,
    {
        match self {
            ChildList::Static(ids) => ChildList::Static(clone_strings(ids)),
            ChildList::Template(t) => ChildList::Template(t.clone()),
        }
    }
}

impl Clone for DataBinding {
    fn clone(&self) -> (r: Self)
        ensures
            r.path@ == self.path@,
    {
        DataBinding { path: self.path.clone() }
    }
}

impl Clone for FunctionCall {
    fn clone(&self) -> (r: Self)
        ensures
            r@ == self@,
    {
        FunctionCall {
            call: self.call.clone(),
            args: clone_args(&self.args),
            return_type: clone_opt_string(&self.return_type),
        }
    }
}

impl Clone for DynamicString {
    fn clone(&self) -> (r: Self)
        ensures
            r@ == self@,
    {
        match self {
            DynamicString::Literal(s) => DynamicString::Literal(s.clone()),
            DynamicString::Binding(b) => DynamicString::Binding(b.clone()),
            DynamicString::Call(c) => DynamicString::Call(c.clone()),
        }
    }
}

} // verus!
