//! The nodes of the syntax tree.

use vstd::prelude::*;
use vstd::std_specs::convert::FromSpecImpl;
use crate::ast::constant::Const;
use crate::ast::op;
use crate::ast::op::UnaryOp;

verus! {

/// A node of the syntax tree: a statement or an expression.
#[derive(Debug, PartialEq)]
pub enum Node {
    /// An array literal.
    ArrayDecl(ArrayDecl),
    /// An arrow function expression.
    ArrowFunctionDecl(ArrowFunctionDecl),
    /// An assignment to a name or to a member of an object.
    Assign(Assign),
    /// A binary operator with its two operands.
    BinOp(BinOp),
    /// A block statement.
    Block(Block),
    /// `break`, with its label if it has one.
    Break(Option<String>),
    /// A call: the callee and the arguments.
    Call(Box<Node>, Vec<Node>),
    /// `condition ? if_true : if_false`.
    ConditionalOp(Box<Node>, Box<Node>, Box<Node>),
    /// A literal.
    Const(Const),
    /// `const` declarations: each name with its initialiser.
    ConstDecl(Vec<(String, Node)>),
    /// `continue`, with its label if it has one.
    Continue(Option<String>),
    /// `do body while (condition)`.
    DoWhileLoop(Box<Node>, Box<Node>),
    /// A function declaration.
    FunctionDecl(FunctionDecl),
    /// A function expression.
    FunctionExpr(FunctionExpr),
    /// `object.name`.
    GetConstField(Box<Node>, String),
    /// `object[key]`.
    GetField(Box<Node>, Box<Node>),
    /// `for (init; condition; step) body`.
    ForLoop(Option<Box<Node>>, Option<Box<Node>>, Option<Box<Node>>, Box<Node>),
    /// `if (condition) body else other`.
    If(Box<Node>, Box<Node>, Option<Box<Node>>),
    /// `let` declarations: each name with its initialiser, if it has one.
    LetDecl(Vec<(String, Option<Node>)>),
    /// A name.
    Local(Local),
    /// `new` applied to a call.
    New(Box<Node>),
    /// An object literal.
    Object(Vec<PropertyDefinition>),
    /// `return`, with its expression if it has one.
    Return(Option<Box<Node>>),
    /// A list of statements without braces.
    StatementList(StatementList),
    /// `switch`: the value, the cases, and the default if there is one.
    Switch(Box<Node>, Vec<(Node, Vec<Node>)>, Option<Box<Node>>),
    /// `...value`.
    Spread(Box<Node>),
    /// `throw value`.
    Throw(Box<Node>),
    /// `typeof value`.
    TypeOf(Box<Node>),
    /// `try`, with a catch clause, a finally block, or both.
    Try(Block, Option<(Option<Local>, Block)>, Option<Block>),
    /// `this`.
    This,
    /// A unary operator with its operand.
    UnaryOp(UnaryOp, Box<Node>),
    /// `var` declarations.
    VarDeclList(VarDeclList),
    /// `while (condition) body`.
    WhileLoop(Box<Node>, Box<Node>),
}

/// An array literal.
#[derive(Debug, PartialEq)]
pub struct ArrayDecl {
    pub arr: Vec<Node>,
}

/// An arrow function expression.
#[derive(Debug, PartialEq)]
pub struct ArrowFunctionDecl {
    pub params: Vec<FormalParameter>,
    pub body: Box<Node>,
}

/// An assignment: the target and the expression assigned to it.
#[derive(Debug, PartialEq)]
pub struct Assign {
    pub lhs: Box<Node>,
    pub rhs: Box<Node>,
}

/// A binary operator with its two operands.
#[derive(Debug, PartialEq)]
pub struct BinOp {
    pub op: op::BinOp,
    pub lhs: Box<Node>,
    pub rhs: Box<Node>,
}

/// A block: the declarations that run first, then the other statements.
#[derive(Debug, PartialEq)]
pub struct Block {
    pub hoistable: Vec<Node>,
    pub statements: Vec<Node>,
}

/// A function declaration.
#[derive(Debug, PartialEq)]
pub struct FunctionDecl {
    pub name: String,
    pub parameters: Vec<FormalParameter>,
    pub body: StatementList,
}

/// A function expression, with its name if it has one.
#[derive(Debug, PartialEq)]
pub struct FunctionExpr {
    pub name: Option<String>,
    pub parameters: Vec<FormalParameter>,
    pub body: StatementList,
}

/// A name.
#[derive(Debug, PartialEq)]
pub struct Local {
    pub name: String,
}

/// A list of statements: the function declarations, then the other
/// statements.
#[derive(Debug, PartialEq)]
pub struct StatementList {
    pub functions: Vec<FunctionDecl>,
    pub statements: Vec<Node>,
}

/// One `var` declaration: the name and its initialiser, if it has one.
#[derive(Debug, PartialEq)]
pub struct VarDecl {
    pub name: String,
    pub init: Option<Node>,
}

/// A `var` statement: one declaration or more.
#[derive(Debug, PartialEq)]
pub struct VarDeclList {
    pub vars: Vec<VarDecl>,
}

/// A parameter of a function.
#[derive(Debug, PartialEq)]
pub struct FormalParameter {
    pub name: String,
    pub init: Option<Node>,
    pub is_rest_param: bool,
}

/// A property of an object literal.
#[derive(Debug, PartialEq)]
pub enum PropertyDefinition {
    /// A name that stands for a property and its value.
    IdentifierReference(String),
    /// A name and a value.
    Property(String, Node),
    /// A method, a getter or a setter.
    MethodDefinition(MethodDefinitionKind, String, FunctionExpr),
    /// `...object`.
    SpreadObject(Node),
}

/// The kinds of method definition.
#[derive(Clone, Copy, Debug, PartialEq, Eq, Structural)]
pub enum MethodDefinitionKind {
    /// A getter.
    Get,
    /// A setter.
    Setter,
    /// A method.
    Ordinary,
}

impl ArrayDecl {
    /// An array literal of the given elements.
    pub fn array_decl(nodes: Vec<Node>) -> (r: ArrayDecl)
        ensures
            r.arr == nodes,
    {
        ArrayDecl { arr: nodes }
    }
}

impl ArrowFunctionDecl {
    /// An arrow function of the given parameters and body.
    pub fn new(params: Vec<FormalParameter>, body: Node) -> (r: ArrowFunctionDecl)
        ensures
            r.params == params,
            *r.body == body,
    {
        ArrowFunctionDecl { params, body: Box::new(body) }
    }
}

impl Assign {
    /// The assignment of `rhs` to the target `lhs`.
    pub fn new(lhs: Node, rhs: Node) -> (r: Assign)
        ensures
            *r.lhs == lhs,
            *r.rhs == rhs,
    {
        Assign { lhs: Box::new(lhs), rhs: Box::new(rhs) }
    }

    /// The target of the assignment.
    pub fn lhs(&self) -> (r: &Node)
        ensures
            *r == *self.lhs,
    {
        &*self.lhs
    }

    /// The expression that is assigned.
    pub fn rhs(&self) -> (r: &Node)
        ensures
            *r == *self.rhs,
    {
        &*self.rhs
    }
}

impl BinOp {
    /// The operator applied to the two operands.
    pub fn new(op: op::BinOp, lhs: Node, rhs: Node) -> (r: BinOp)
        ensures
            r.op == op,
            *r.lhs == lhs,
            *r.rhs == rhs,
    {
        BinOp { op, lhs: Box::new(lhs), rhs: Box::new(rhs) }
    }

    /// The operator.
    pub fn op(&self) -> (r: op::BinOp)
        ensures
            r == self.op,
    {
        self.op
    }

    /// The left operand.
    pub fn lhs(&self) -> (r: &Node)
        ensures
            *r == *self.lhs,
    {
        &*self.lhs
    }

    /// The right operand.
    pub fn rhs(&self) -> (r: &Node)
        ensures
            *r == *self.rhs,
    {
        &*self.rhs
    }
}

impl Block {
    /// A block of the given declarations and statements.
    pub fn new(hoistable: Vec<Node>, statements: Vec<Node>) -> (r: Block)
        ensures
            r.hoistable == hoistable,
            r.statements == statements,
    {
        Block { hoistable, statements }
    }

    /// The declarations that run first.
    pub fn hoistable(&self) -> (r: &Vec<Node>)
        ensures
            *r == self.hoistable,
    {
        &self.hoistable
    }

    /// The statements that run after the declarations.
    pub fn statements(&self) -> (r: &Vec<Node>)
        ensures
            *r == self.statements,
    {
        &self.statements
    }

    /// The statements in the order in which they run.
    pub open spec fn in_order(self) -> Seq<Node> {
        self.hoistable@ + self.statements@
    }
}

impl FunctionDecl {
    /// The declaration of a function of the given name, parameters and body.
    pub fn new(name: &str, parameters: Vec<FormalParameter>, body: StatementList) -> (r:
        FunctionDecl)
        ensures
            r.name@ == name@,
            r.parameters == parameters,
            r.body == body,
    {
        FunctionDecl { name: String::from_str(name), parameters, body }
    }
}

impl FunctionExpr {
    /// A function expression of the given name, parameters and body.
    pub fn new(name: Option<String>, parameters: Vec<FormalParameter>, body: StatementList) -> (r:
        FunctionExpr)
        ensures
            r.name == name,
            r.parameters == parameters,
            r.body == body,
    {
        FunctionExpr { name, parameters, body }
    }
}

impl Local {
    /// The name.
    pub fn new(name: &str) -> (r: Local)
        ensures
            r.name@ == name@,
    {
        Local { name: String::from_str(name) }
    }
}

impl StatementList {
    /// A list of the given function declarations and statements.
    pub fn new(functions: Vec<FunctionDecl>, statements: Vec<Node>) -> (r: StatementList)
        ensures
            r.functions == functions,
            r.statements == statements,
    {
        StatementList { functions, statements }
    }
}

impl VarDecl {
    /// The declaration of a name with its initialiser.
    pub fn new(name: &str, init: Option<Node>) -> (r: VarDecl)
        ensures
            r.name@ == name@,
            r.init == init,
    {
        VarDecl { name: String::from_str(name), init }
    }
}

impl FormalParameter {
    /// A parameter of the given name, with its initialiser and whether it takes
    /// the rest of the arguments.
    pub fn new(name: &str, init: Option<Node>, is_rest_param: bool) -> (r: FormalParameter)
        ensures
            r.name@ == name@,
            r.init == init,
            r.is_rest_param == is_rest_param,
    {
        FormalParameter { name: String::from_str(name), init, is_rest_param }
    }

    /// The name of the parameter.
    pub fn name(&self) -> (r: &str)
        ensures
            r@ == self.name@,
    {
        self.name.as_str()
    }

    /// The initialiser of the parameter, if it has one.
    pub fn init(&self) -> (r: Option<&Node>)
        ensures
            match r {
                Some(node) => self.init == Some(*node),
                None => self.init.is_none(),
            },
    {
        self.init.as_ref()
    }

    /// Whether the parameter takes the rest of the arguments.
    pub fn is_rest_param(&self) -> (r: bool)
        ensures
            r == self.is_rest_param,
    {
        self.is_rest_param
    }
}

impl PropertyDefinition {
    /// A property given by a name alone.
    pub fn identifier_reference(ident: &str) -> (r: PropertyDefinition)
        ensures
            r matches PropertyDefinition::IdentifierReference(name) && name@ == ident@,
    {
        PropertyDefinition::IdentifierReference(String::from_str(ident))
    }

    /// A property of the given name and value.
    pub fn property(name: &str, value: Node) -> (r: PropertyDefinition)
        ensures
            r matches PropertyDefinition::Property(key, node) && key@ == name@ && node == value,
    {
        PropertyDefinition::Property(String::from_str(name), value)
    }

    /// A method, a getter or a setter of the given name.
    pub fn method_definition(kind: MethodDefinitionKind, name: &str, body: FunctionExpr) -> (r:
        PropertyDefinition)
        ensures
            r matches PropertyDefinition::MethodDefinition(k, key, function) && k == kind && key@
                == name@ && function == body,
    {
        PropertyDefinition::MethodDefinition(kind, String::from_str(name), body)
    }

    /// The properties of an object, spread.
    pub fn spread_object(obj: Node) -> (r: PropertyDefinition)
        ensures
            r == PropertyDefinition::SpreadObject(obj),
    {
        PropertyDefinition::SpreadObject(obj)
    }
}

/// A label as an owned string.
fn own_label(label: Option<&str>) -> (r: Option<String>)
    ensures
        match (label, r) {
            (Some(given), Some(owned)) => owned@ == given@,
            (None, None) => true,
            _ => false,
        },
{
    match label {
        Some(given) => Some(String::from_str(given)),
        None => None,
    }
}

/// A node in a box, where there is one.
fn boxed(node: Option<Node>) -> (r: Option<Box<Node>>)
    ensures
        match (node, r) {
            (Some(given), Some(held)) => *held == given,
            (None, None) => true,
            _ => false,
        },
{
    match node {
        Some(given) => Some(Box::new(given)),
        None => None,
    }
}

impl Node {
    /// A `break`, with its label if it has one.
    pub fn break_node(label: Option<&str>) -> (r: Node)
        ensures
            match (label, r) {
                (Some(given), Node::Break(Some(held))) => held@ == given@,
                (None, Node::Break(None)) => true,
                _ => false,
            },
    {
        Node::Break(own_label(label))
    }

    /// A call of the function with the arguments.
    pub fn call(function: Node, params: Vec<Node>) -> (r: Node)
        ensures
            r == Node::Call(Box::new(function), params),
    {
        Node::Call(Box::new(function), params)
    }

    /// `condition ? if_true : if_false`.
    pub fn conditional_op(condition: Node, if_true: Node, if_false: Node) -> (r: Node)
        ensures
            r == Node::ConditionalOp(Box::new(condition), Box::new(if_true), Box::new(if_false)),
    {
        Node::ConditionalOp(Box::new(condition), Box::new(if_true), Box::new(if_false))
    }

    /// A literal.
    pub fn const_node(node: Const) -> (r: Node)
        ensures
            r == Node::Const(node),
    {
        Node::Const(node)
    }

    /// A `const` statement.
    pub fn const_decl(decl: Vec<(String, Node)>) -> (r: Node)
        ensures
            r == Node::ConstDecl(decl),
    {
        Node::ConstDecl(decl)
    }

    /// A `continue`, with its label if it has one.
    pub fn continue_node(label: Option<&str>) -> (r: Node)
        ensures
            match (label, r) {
                (Some(given), Node::Continue(Some(held))) => held@ == given@,
                (None, Node::Continue(None)) => true,
                _ => false,
            },
    {
        Node::Continue(own_label(label))
    }

    /// `do body while (condition)`.
    pub fn do_while_loop(body: Node, condition: Node) -> (r: Node)
        ensures
            r == Node::DoWhileLoop(Box::new(body), Box::new(condition)),
    {
        Node::DoWhileLoop(Box::new(body), Box::new(condition))
    }

    /// The declaration of a function.
    pub fn function_decl(name: &str, parameters: Vec<FormalParameter>, body: StatementList) -> (r:
        Node)
        ensures
            r matches Node::FunctionDecl(decl) && decl.name@ == name@ && decl.parameters
                == parameters && decl.body == body,
    {
        Node::FunctionDecl(FunctionDecl::new(name, parameters, body))
    }

    /// `value.label`.
    pub fn get_const_field(value: Node, label: &str) -> (r: Node)
        ensures
            r matches Node::GetConstField(object, name) && *object == value && name@ == label@,
    {
        Node::GetConstField(Box::new(value), String::from_str(label))
    }

    /// `value[field]`.
    pub fn get_field(value: Node, field: Node) -> (r: Node)
        ensures
            r == Node::GetField(Box::new(value), Box::new(field)),
    {
        Node::GetField(Box::new(value), Box::new(field))
    }

    /// `for (init; condition; step) body`.
    pub fn for_loop(init: Option<Node>, condition: Option<Node>, step: Option<Node>, body: Node) -> (r:
        Node)
        ensures
            r matches Node::ForLoop(i, c, s, b) && *b == body && (match (init, i) {
                (Some(given), Some(held)) => *held == given,
                (None, None) => true,
                _ => false,
            }) && (match (condition, c) {
                (Some(given), Some(held)) => *held == given,
                (None, None) => true,
                _ => false,
            }) && (match (step, s) {
                (Some(given), Some(held)) => *held == given,
                (None, None) => true,
                _ => false,
            }),
    {
        Node::ForLoop(boxed(init), boxed(condition), boxed(step), Box::new(body))
    }

    /// `if (condition) body`, with its `else` if it has one.
    pub fn if_node(condition: Node, body: Node, else_node: Option<Node>) -> (r: Node)
        ensures
            r matches Node::If(c, b, e) && *c == condition && *b == body && (match (else_node, e) {
                (Some(given), Some(held)) => *held == given,
                (None, None) => true,
                _ => false,
            }),
    {
        Node::If(Box::new(condition), Box::new(body), boxed(else_node))
    }

    /// A `let` statement.
    pub fn let_decl(init: Vec<(String, Option<Node>)>) -> (r: Node)
        ensures
            r == Node::LetDecl(init),
    {
        Node::LetDecl(init)
    }

    /// `new` applied to a call.
    pub fn new(node: Node) -> (r: Node)
        ensures
            r == Node::New(Box::new(node)),
    {
        Node::New(Box::new(node))
    }

    /// An object literal.
    pub fn object(def: Vec<PropertyDefinition>) -> (r: Node)
        ensures
            r == Node::Object(def),
    {
        Node::Object(def)
    }

    /// A `return`, with its expression if it has one.
    pub fn return_node(expr: Option<Node>) -> (r: Node)
        ensures
            match (expr, r) {
                (Some(given), Node::Return(Some(held))) => *held == given,
                (None, Node::Return(None)) => true,
                _ => false,
            },
    {
        Node::Return(boxed(expr))
    }

    /// A list of statements with no function declarations of its own.
    pub fn statement_list(statements: Vec<Node>) -> (r: Node)
        ensures
            r matches Node::StatementList(list) && list.functions@.len() == 0 && list.statements
                == statements,
    {
        Node::StatementList(StatementList::new(Vec::new(), statements))
    }

    /// A `switch` over the value, with its cases and its default if it has one.
    pub fn switch(val: Node, cases: Vec<(Node, Vec<Node>)>, default: Option<Node>) -> (r: Node)
        ensures
            r matches Node::Switch(v, c, d) && *v == val && c == cases && (match (default, d) {
                (Some(given), Some(held)) => *held == given,
                (None, None) => true,
                _ => false,
            }),
    {
        Node::Switch(Box::new(val), cases, boxed(default))
    }

    /// `...val`.
    pub fn spread(val: Node) -> (r: Node)
        ensures
            r == Node::Spread(Box::new(val)),
    {
        Node::Spread(Box::new(val))
    }

    /// `throw val`.
    pub fn throw(val: Node) -> (r: Node)
        ensures
            r == Node::Throw(Box::new(val)),
    {
        Node::Throw(Box::new(val))
    }

    /// `typeof expr`.
    pub fn type_of(expr: Node) -> (r: Node)
        ensures
            r == Node::TypeOf(Box::new(expr)),
    {
        Node::TypeOf(Box::new(expr))
    }

    /// A `try` statement, which has a catch clause or a finally block.
    pub fn try_node(try_node: Block, catch: Option<(Option<Local>, Block)>, finally: Option<
        Block,
    >) -> (r: Node)
        requires
            catch.is_some() || finally.is_some(),
        ensures
            r == Node::Try(try_node, catch, finally),
    {
        Node::Try(try_node, catch, finally)
    }

    /// `this`.
    pub fn this() -> (r: Node)
        ensures
            r == Node::This,
    {
        Node::This
    }

    /// The unary operator applied to the operand.
    pub fn unary_op(op: UnaryOp, val: Node) -> (r: Node)
        ensures
            r == Node::UnaryOp(op, Box::new(val)),
    {
        Node::UnaryOp(op, Box::new(val))
    }

    /// A `var` statement of one declaration.
    pub fn var_decl(name: &str, init: Option<Node>) -> (r: Node)
        ensures
            r matches Node::VarDeclList(list) && list.vars@.len() == 1 && list.vars@[0].name@
                == name@ && list.vars@[0].init == init,
    {
        let mut vars: Vec<VarDecl> = Vec::new();
        vars.push(VarDecl::new(name, init));
        Node::VarDeclList(VarDeclList { vars })
    }

    /// `while (condition) body`.
    pub fn while_loop(condition: Node, body: Node) -> (r: Node)
        ensures
            r == Node::WhileLoop(Box::new(condition), Box::new(body)),
    {
        Node::WhileLoop(Box::new(condition), Box::new(body))
    }
}


impl From<ArrayDecl> for Node {
    fn from(arr: ArrayDecl) -> (r: Node) {
        Node::ArrayDecl(arr)
    }
}

impl FromSpecImpl<ArrayDecl> for Node {
    open spec fn obeys_from_spec() -> bool {
        true
    }

    open spec fn from_spec(arr: ArrayDecl) -> Node {
        Node::ArrayDecl(arr)
    }
}

impl From<ArrowFunctionDecl> for Node {
    fn from(decl: ArrowFunctionDecl) -> (r: Node) {
        Node::ArrowFunctionDecl(decl)
    }
}

impl FromSpecImpl<ArrowFunctionDecl> for Node {
    open spec fn obeys_from_spec() -> bool {
        true
    }

    open spec fn from_spec(decl: ArrowFunctionDecl) -> Node {
        Node::ArrowFunctionDecl(decl)
    }
}

impl From<Assign> for Node {
    fn from(assign: Assign) -> (r: Node) {
        Node::Assign(assign)
    }
}

impl FromSpecImpl<Assign> for Node {
    open spec fn obeys_from_spec() -> bool {
        true
    }

    open spec fn from_spec(assign: Assign) -> Node {
        Node::Assign(assign)
    }
}

impl From<BinOp> for Node {
    fn from(op: BinOp) -> (r: Node) {
        Node::BinOp(op)
    }
}

impl FromSpecImpl<BinOp> for Node {
    open spec fn obeys_from_spec() -> bool {
        true
    }

    open spec fn from_spec(op: BinOp) -> Node {
        Node::BinOp(op)
    }
}

impl From<Block> for Node {
    fn from(block: Block) -> (r: Node) {
        Node::Block(block)
    }
}

impl FromSpecImpl<Block> for Node {
    open spec fn obeys_from_spec() -> bool {
        true
    }

    open spec fn from_spec(block: Block) -> Node {
        Node::Block(block)
    }
}

impl From<Const> for Node {
    fn from(literal: Const) -> (r: Node) {
        Node::Const(literal)
    }
}

impl FromSpecImpl<Const> for Node {
    open spec fn obeys_from_spec() -> bool {
        true
    }

    open spec fn from_spec(literal: Const) -> Node {
        Node::Const(literal)
    }
}

impl From<FunctionDecl> for Node {
    fn from(decl: FunctionDecl) -> (r: Node) {
        Node::FunctionDecl(decl)
    }
}

impl FromSpecImpl<FunctionDecl> for Node {
    open spec fn obeys_from_spec() -> bool {
        true
    }

    open spec fn from_spec(decl: FunctionDecl) -> Node {
        Node::FunctionDecl(decl)
    }
}

impl From<FunctionExpr> for Node {
    fn from(expr: FunctionExpr) -> (r: Node) {
        Node::FunctionExpr(expr)
    }
}

impl FromSpecImpl<FunctionExpr> for Node {
    open spec fn obeys_from_spec() -> bool {
        true
    }

    open spec fn from_spec(expr: FunctionExpr) -> Node {
        Node::FunctionExpr(expr)
    }
}

impl From<Local> for Node {
    fn from(local: Local) -> (r: Node) {
        Node::Local(local)
    }
}

impl FromSpecImpl<Local> for Node {
    open spec fn obeys_from_spec() -> bool {
        true
    }

    open spec fn from_spec(local: Local) -> Node {
        Node::Local(local)
    }
}

impl From<StatementList> for Node {
    fn from(list: StatementList) -> (r: Node) {
        Node::StatementList(list)
    }
}

impl FromSpecImpl<StatementList> for Node {
    open spec fn obeys_from_spec() -> bool {
        true
    }

    open spec fn from_spec(list: StatementList) -> Node {
        Node::StatementList(list)
    }
}

impl From<VarDeclList> for Node {
    fn from(list: VarDeclList) -> (r: Node) {
        Node::VarDeclList(list)
    }
}

impl FromSpecImpl<VarDeclList> for Node {
    open spec fn obeys_from_spec() -> bool {
        true
    }

    open spec fn from_spec(list: VarDeclList) -> Node {
        Node::VarDeclList(list)
    }
}

impl From<Vec<VarDecl>> for VarDeclList {
    fn from(vars: Vec<VarDecl>) -> (r: VarDeclList) {
        VarDeclList { vars }
    }
}

impl FromSpecImpl<Vec<VarDecl>> for VarDeclList {
    open spec fn obeys_from_spec() -> bool {
        true
    }

    open spec fn from_spec(vars: Vec<VarDecl>) -> VarDeclList {
        VarDeclList { vars }
    }
}

impl From<Vec<Node>> for ArrayDecl {
    fn from(arr: Vec<Node>) -> (r: ArrayDecl) {
        ArrayDecl { arr }
    }
}

impl FromSpecImpl<Vec<Node>> for ArrayDecl {
    open spec fn obeys_from_spec() -> bool {
        true
    }

    open spec fn from_spec(arr: Vec<Node>) -> ArrayDecl {
        ArrayDecl { arr }
    }
}

impl<'a> From<&'a str> for Local {
    fn from(name: &'a str) -> (r: Local)
        ensures
            r.name@ == name@,
    {
        Local::new(name)
    }
}

impl<'a> FromSpecImpl<&'a str> for Local {
    open spec fn obeys_from_spec() -> bool {
        false
    }

    open spec fn from_spec(name: &'a str) -> Local {
        arbitrary()
    }
}


impl Node {
    /// Whether the node groups from the left: all do but unary operators,
    /// `typeof`, `if` and assignments.
    pub open spec fn associates_left(self) -> bool {
        match self {
            Node::UnaryOp(_, _) => false,
            Node::TypeOf(_) => false,
            Node::If(_, _, _) => false,
            Node::Assign(_) => false,
            _ => true,
        }
    }

    /// How tightly the node binds: the smaller the number, the tighter.
    pub open spec fn precedence(self) -> u64 {
        match self {
            Node::GetField(_, _) => 1,
            Node::GetConstField(_, _) => 1,
            Node::Call(_, _) => 2,
            Node::UnaryOp(UnaryOp::IncrementPost, _) => 3,
            Node::UnaryOp(UnaryOp::IncrementPre, _) => 3,
            Node::UnaryOp(UnaryOp::DecrementPost, _) => 3,
            Node::UnaryOp(UnaryOp::DecrementPre, _) => 3,
            Node::UnaryOp(UnaryOp::Not, _) => 4,
            Node::UnaryOp(UnaryOp::Tilde, _) => 4,
            Node::UnaryOp(UnaryOp::Minus, _) => 4,
            Node::TypeOf(_) => 4,
            Node::BinOp(inner) => inner.op.precedence(),
            Node::If(_, _, _) => 15,
            Node::Assign(_) => 17,
            _ => 19,
        }
    }

    /// Whether the node groups from the left.
    pub fn get_assoc(&self) -> (r: bool)
        ensures
            r == self.associates_left(),
    {
        match self {
            Node::UnaryOp(_, _) | Node::TypeOf(_) | Node::If(_, _, _) | Node::Assign(_) => false,
            _ => true,
        }
    }

    /// How tightly the node binds.
    pub fn get_precedence(&self) -> (r: u64)
        ensures
            r == self.precedence(),
    {
        match self {
            Node::GetField(_, _) | Node::GetConstField(_, _) => 1,
            Node::Call(_, _) => 2,
            Node::UnaryOp(UnaryOp::IncrementPost, _)
            | Node::UnaryOp(UnaryOp::IncrementPre, _)
            | Node::UnaryOp(UnaryOp::DecrementPost, _)
            | Node::UnaryOp(UnaryOp::DecrementPre, _) => 3,
            Node::UnaryOp(UnaryOp::Not, _)
            | Node::UnaryOp(UnaryOp::Tilde, _)
            | Node::UnaryOp(UnaryOp::Minus, _)
            | Node::TypeOf(_) => 4,
            Node::BinOp(inner) => inner.op().get_precedence(),
            Node::If(_, _, _) => 15,
            Node::Assign(_) => 17,
            _ => 19,
        }
    }
}

} // verus!
