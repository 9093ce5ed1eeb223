//! The model of a parsed source file that the cleaner works on.
//!
//! A tree holds what the rewrites read and nothing more. Names, types, paths
//! and statements are kept as the text that they render to when the tree is
//! built. A rewrite changes the names of parameters and the places of
//! imports only: the text of a statement stays as it was read, also where an
//! item nested in that statement is rewritten, so every decision of a pass
//! rests on the file as it stood before the pass.
//!
//! Each type has a mathematical view over sequences of characters, and the
//! contracts of the rewrites are stated over those views.

use vstd::prelude::*;

verus! {

/// A declared parameter of a function.
///
/// `simple` says that the parameter binds one plain identifier, which `name`
/// then holds. For any other pattern `name` holds the pattern as written, and
/// no rewrite touches it.
#[derive(Debug, PartialEq, Eq)]
pub struct Parameter {
    pub name: String,
    pub ty: String,
    pub simple: bool,
}

/// A statement of a function body, known by the text that it renders to.
#[derive(Debug, PartialEq, Eq)]
pub struct Statement {
    pub text: String,
}

/// A function definition: its parameters in declaration order, the
/// statements of its body in order, and the items declared inside it.
#[derive(Debug, PartialEq, Eq)]
pub struct Function {
    pub params: Vec<Parameter>,
    pub body: Vec<Statement>,
    pub nested: Vec<Item>,
}

/// An import, known by the text that its path renders to.
#[derive(Debug, PartialEq, Eq)]
pub struct Import {
    pub path: String,
}

/// A declaration of a source file.
#[derive(Debug, PartialEq, Eq)]
pub enum Item {
    /// A function definition.
    Function(Function),
    /// An import.
    Import(Import),
    /// Any other declaration, with the items declared inside it.
    Other(Vec<Item>),
    /// The empty placeholder that an erased import leaves behind. It renders
    /// to nothing.
    Erased,
}

/// A parsed source file: its top-level items in order.
#[derive(Debug, PartialEq, Eq)]
pub struct SyntaxTree {
    pub items: Vec<Item>,
}

/// What a [`Parameter`] is.
pub ghost struct ParameterView {
    pub name: Seq<char>,
    pub ty: Seq<char>,
    pub simple: bool,
}

/// What a [`Function`] is. A statement is its text.
pub ghost struct FunctionView {
    pub params: Seq<ParameterView>,
    pub body: Seq<Seq<char>>,
    pub nested: Seq<ItemView>,
}

/// What an [`Item`] is. An import is the text of its path.
pub ghost enum ItemView {
    Function(FunctionView),
    Import(Seq<char>),
    Other(Seq<ItemView>),
    Erased,
}

impl View for Parameter {
    type V = ParameterView;

    open spec fn view(&self) -> ParameterView {
        ParameterView { name: self.name@, ty: self.ty@, simple: self.simple }
    }
}

impl View for Statement {
    type V = Seq<char>;

    open spec fn view(&self) -> Seq<char> {
        self.text@
    }
}

impl View for Import {
    type V = Seq<char>;

    open spec fn view(&self) -> Seq<char> {
        self.path@
    }
}

impl Parameter {
    /// A parameter that binds the plain identifier `name`.
    pub fn simple(name: &str, ty: &str) -> (param: Self)
        ensures
            param@ == (ParameterView { name: name@, ty: ty@, simple: true }),
    {
        Parameter { name: name.to_owned(), ty: ty.to_owned(), simple: true }
    }

    /// A parameter that binds anything but one plain identifier, such as a
    /// tuple pattern or a receiver, with the pattern as it is written.
    pub fn pattern(pattern: &str, ty: &str) -> (param: Self)
        ensures
            param@ == (ParameterView { name: pattern@, ty: ty@, simple: false }),
    {
        Parameter { name: pattern.to_owned(), ty: ty.to_owned(), simple: false }
    }
}

impl Statement {
    /// The statement that renders to `text`.
    pub fn new(text: &str) -> (statement: Self)
        ensures
            statement@ == text@,
    {
        Statement { text: text.to_owned() }
    }
}

impl Import {
    /// The import whose path renders to `path`.
    pub fn new(path: &str) -> (import: Self)
        ensures
            import@ == path@,
    {
        Import { path: path.to_owned() }
    }
}

/// The views of a run of parameters.
pub open spec fn params_view(params: Seq<Parameter>) -> Seq<ParameterView> {
    Seq::new(params.len(), |i: int| params[i]@)
}

/// The texts of a run of statements.
pub open spec fn body_view(body: Seq<Statement>) -> Seq<Seq<char>> {
    Seq::new(body.len(), |i: int| body[i]@)
}

/// The view of an item, through every level of nesting.
pub open spec fn item_view(item: Item) -> ItemView
    decreases item,
{
    match item {
        Item::Function(f) => ItemView::Function(
            FunctionView {
                params: params_view(f.params@),
                body: body_view(f.body@),
                nested: items_view(f.nested),
            },
        ),
        Item::Import(import) => ItemView::Import(import@),
        Item::Other(nested) => ItemView::Other(items_view(nested)),
        Item::Erased => ItemView::Erased,
    }
}

/// The views of a run of items.
pub open spec fn items_view(items: Vec<Item>) -> Seq<ItemView>
    decreases items,
{
    Seq::new(
        items.len() as nat,
        |i: int|
            if 0 <= i < items.len() {
                item_view(items[i])
            } else {
                ItemView::Erased
            },
    )
}

impl View for Item {
    type V = ItemView;

    open spec fn view(&self) -> ItemView {
        item_view(*self)
    }
}

impl View for Function {
    type V = FunctionView;

    open spec fn view(&self) -> FunctionView {
        FunctionView {
            params: params_view(self.params@),
            body: body_view(self.body@),
            nested: items_view(self.nested),
        }
    }
}

impl View for SyntaxTree {
    type V = Seq<ItemView>;

    open spec fn view(&self) -> Seq<ItemView> {
        items_view(self.items)
    }
}

impl Clone for Parameter {
    fn clone(&self) -> (copy: Self)
        ensures
            copy@ == self@,
    {
        Parameter { name: self.name.clone(), ty: self.ty.clone(), simple: self.simple }
    }
}

impl Clone for Statement {
    fn clone(&self) -> (copy: Self)
        ensures
            copy@ == self@,
    {
        Statement { text: self.text.clone() }
    }
}

impl Clone for Import {
    fn clone(&self) -> (copy: Self)
        ensures
            copy@ == self@,
    {
        Import { path: self.path.clone() }
    }
}

/// A copy of a run of items, through every level of nesting.
fn clone_items(items: &Vec<Item>) -> (copy: Vec<Item>)
    ensures
        items_view(copy) == items_view(*items),
    decreases items,
{
    let mut copy: Vec<Item> = Vec::new();
    let mut i: usize = 0;
    while i < items.len()
        invariant
            i <= items.len(),
            copy.len() == i,
            forall|j: int| 0 <= j < i ==> item_view(#[trigger] copy[j]) == item_view(items[j]),
        decreases items.len() - i,
    {
        copy.push(items[i].clone());
        i += 1;
    }
    assert(items_view(copy) =~= items_view(*items));
    copy
}

impl Clone for Function {
    fn clone(&self) -> (copy: Self)
        ensures
            copy@ == self@,
        decreases self,
    {
        let mut params: Vec<Parameter> = Vec::new();
        let mut i: usize = 0;
        while i < self.params.len()
            invariant
                i <= self.params.len(),
                params.len() == i,
                forall|j: int| 0 <= j < i ==> (#[trigger] params[j])@ == self.params[j]@,
            decreases self.params.len() - i,
        {
            params.push(self.params[i].clone());
            i += 1;
        }
        let mut body: Vec<Statement> = Vec::new();
        let mut k: usize = 0;
        while k < self.body.len()
            invariant
                k <= self.body.len(),
                body.len() == k,
                forall|j: int| 0 <= j < k ==> (#[trigger] body[j])@ == self.body[j]@,
            decreases self.body.len() - k,
        {
            body.push(self.body[k].clone());
            k += 1;
        }
        let nested = clone_items(&self.nested);
        assert(params_view(params@) =~= params_view(self.params@));
        assert(body_view(body@) =~= body_view(self.body@));
        Function { params, body, nested }
    }
}

impl Clone for Item {
    fn clone(&self) -> (copy: Self)
        ensures
            copy@ == self@,
        decreases self,
    {
        match self {
            Item::Function(function) => Item::Function(function.clone()),
            Item::Import(import) => Item::Import(import.clone()),
            Item::Other(nested) => Item::Other(clone_items(nested)),
            Item::Erased => Item::Erased,
        }
    }
}

impl Clone for SyntaxTree {
    fn clone(&self) -> (copy: Self)
        ensures
            copy@ == self@,
    {
        SyntaxTree { items: clone_items(&self.items) }
    }
}

} // verus!
