use vstd::prelude::*;

verus! {

/// A type name of the language.
#[derive(Debug, Clone, Copy, PartialEq, Eq)]
pub enum Type {
    I64,
}

/// An expression embedded in a statement.
#[derive(Debug, Clone, PartialEq, Eq)]
pub enum Expression {
    Value(usize),
    GetVariable(String),
}

/// A statement of the syntax tree.
#[derive(Debug, PartialEq, Eq)]
pub enum Node {
    Function {
        name: String,
        parameters: Vec<(String, Type)>,
        return_types: Option<Vec<Type>>,
        body: Vec<Node>,
    },
    DefineVariable {
        name: String,
        mutable: bool,
        var_type: Type,
        expression: Option<Expression>,
    },
    Conditional((Expression, Expression), Vec<Node>, Option<Vec<Node>>),
    Call(String, Vec<Expression>),
    Scope(Vec<Node>),
}

/// Mathematical value of an `Expression`.
pub enum ExpressionView {
    Value(nat),
    GetVariable(Seq<char>),
}

/// Mathematical value of a `Node`.
pub enum NodeView {
    Function {
        name: Seq<char>,
        parameters: Seq<(Seq<char>, Type)>,
        return_types: Option<Seq<Type>>,
        body: Seq<NodeView>,
    },
    DefineVariable {
        name: Seq<char>,
        mutable: bool,
        var_type: Type,
        expression: Option<ExpressionView>,
    },
    Conditional(ExpressionView, ExpressionView, Seq<NodeView>, Option<Seq<NodeView>>),
    Call(Seq<char>, Seq<ExpressionView>),
    Scope(Seq<NodeView>),
}

impl View for Expression {
    type V = ExpressionView;

    open spec fn view(&self) -> ExpressionView {
        match self {
            Expression::Value(n) => ExpressionView::Value(*n as nat),
            Expression::GetVariable(name) => ExpressionView::GetVariable(name@),
        }
    }
}

/// Mathematical value of a sequence of expressions.
pub open spec fn expressions_view(s: Seq<Expression>) -> Seq<ExpressionView> {
    s.map_values(|e: Expression| e@)
}

/// Mathematical value of a parameter list: each name as its characters.
pub open spec fn parameters_view(s: Seq<(String, Type)>) -> Seq<(Seq<char>, Type)> {
    s.map_values(|p: (String, Type)| (p.0@, p.1))
}

/// Mathematical value of a statement, children included.
pub open spec fn node_view(n: Node) -> NodeView
    decreases n,
{
    match n {
        Node::Function { name, parameters, return_types, body } => NodeView::Function {
            name: name@,
            parameters: parameters_view(parameters@),
            return_types: match return_types {
                Some(types) => Some(types@),
                None => None,
            },
            body: nodes_view(body@),
        },
        Node::DefineVariable { name, mutable, var_type, expression } => NodeView::DefineVariable {
            name: name@,
            mutable,
            var_type,
            expression: match expression {
                Some(e) => Some(e@),
                None => None,
            },
        },
        Node::Conditional(condition, then_body, else_body) => NodeView::Conditional(
            condition.0@,
            condition.1@,
            nodes_view(then_body@),
            match else_body {
                Some(b) => Some(nodes_view(b@)),
                None => None,
            },
        ),
        Node::Call(name, arguments) => NodeView::Call(name@, expressions_view(arguments@)),
        Node::Scope(body) => NodeView::Scope(nodes_view(body@)),
    }
}

/// Mathematical value of a sequence of statements.
pub open spec fn nodes_view(s: Seq<Node>) -> Seq<NodeView>
    decreases s,
{
    if s.len() == 0 {
        Seq::empty()
    } else {
        nodes_view(s.drop_last()).push(node_view(s.last()))
    }
}

impl View for Node {
    type V = NodeView;

    open spec fn view(&self) -> NodeView {
        node_view(*self)
    }
}

/// Appending a statement appends its value.
pub proof fn lemma_nodes_view_push(s: Seq<Node>, n: Node)
    ensures
        nodes_view(s.push(n)) == nodes_view(s).push(n@),
{
    assert(s.push(n).drop_last() =~= s);
}

} // verus!
