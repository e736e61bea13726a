//! The state of the interpreter, and what it exchanges with its driver.

use vstd::prelude::*;
use crate::ast::node::{Assign, Block, FunctionDecl, Node, StatementList, VarDeclList};
use crate::ast::op;
use crate::ast::op::{AssignOp, LogOp};
use crate::environment::{LexicalEnvironment, ScopeView};
use crate::pending::{Pending, PendingView, Reply, ReplyView, Request, RequestView};
use crate::value::{Content, Value};

verus! {

/// What the interpreter does next.
#[derive(Debug, PartialEq)]
pub enum Control<'a> {
    /// Nothing: no node is loaded, or the loaded one is finished.
    Idle,
    /// Execute the node.
    Evaluate(&'a Node),
    /// Hand the value to what waits for it.
    Value(Value),
    /// Unwind with the thrown value.
    Throw(Value),
    /// Take the answer to the action that was handed out.
    Waiting,
}

/// `Control`, as mathematics sees it.
pub enum ControlView {
    Idle,
    Evaluate(Node),
    Value(Content),
    Throw(Content),
    Waiting,
}

impl<'a> View for Control<'a> {
    type V = ControlView;

    open spec fn view(&self) -> ControlView {
        match *self {
            Control::Idle => ControlView::Idle,
            Control::Evaluate(node) => ControlView::Evaluate(*node),
            Control::Value(v) => ControlView::Value(v@),
            Control::Throw(v) => ControlView::Throw(v@),
            Control::Waiting => ControlView::Waiting,
        }
    }
}

/// What waits for a value or for an answer.
#[allow(inconsistent_fields)]
#[derive(Debug, PartialEq)]
pub enum Frame<'a> {
    /// A block whose scope is pushed. It runs its declarations, then its
    /// statements: `declaration` and `statement` are the places of those
    /// that run next.
    Block { block: &'a Block, declaration: usize, statement: usize },
    /// A statement list, which runs its function declarations, then its
    /// statements; it has no scope of its own.
    List { list: &'a StatementList, function: usize, statement: usize },
    /// An assignment whose right-hand side is being evaluated.
    Assign { assign: &'a Assign },
    /// An assignment to `object.name` whose object is being evaluated.
    AssignMember { name: &'a String, value: Value },
    /// An assignment to `object[key]` whose object is being evaluated.
    AssignKeyed { key: &'a Node, value: Value },
    /// An assignment to `object[key]` whose key is being evaluated.
    AssignKey { object: Value, value: Value },
    /// A write to a field that has been handed out; `value` is the result
    /// once it is acknowledged.
    Yield { value: Value },
    /// A binary operator whose left operand is being evaluated.
    Left { op: op::BinOp, right: &'a Node },
    /// A binary operator whose right operand is being evaluated.
    Right { op: op::BinOp, left: Value },
    /// A logical operator whose left operand is being evaluated.
    LogicalLeft { op: LogOp, right: &'a Node },
    /// A logical operator whose right operand is being evaluated.
    LogicalRight,
    /// A compound assignment to a name whose right-hand side is being
    /// evaluated; `current` is the value that the name had before.
    CompoundLocal { op: AssignOp, name: &'a String, current: Value },
    /// The result of a compound assignment, to be stored under the name.
    StoreLocal { name: &'a String },
    /// A compound assignment to `object.name` whose object is being
    /// evaluated.
    CompoundObject { op: AssignOp, name: &'a String, right: &'a Node },
    /// A compound assignment to `object.name` that waits for the value of
    /// the field.
    CompoundCurrent { op: AssignOp, name: &'a String, right: &'a Node, object: Value },
    /// A compound assignment to `object.name` whose right-hand side is being
    /// evaluated.
    CompoundMember { op: AssignOp, name: &'a String, object: Value, current: Value },
    /// The result of a compound assignment, to be stored in the field.
    StoreMember { name: &'a String, object: Value },
    /// A `return` whose expression is being evaluated.
    Return,
    /// A `var` statement: the initialiser of declaration `index` is being
    /// evaluated.
    Var { list: &'a VarDeclList, index: usize },
    /// A `let` statement, in the same way.
    Let { list: &'a Vec<(String, Option<Node>)>, index: usize },
    /// A `const` statement, in the same way.
    Const { list: &'a Vec<(String, Node)>, index: usize },
    /// A computation that waits for floating-point work.
    Pending(Pending),
    /// An abstract equality that waits for the primitive of an object, which
    /// is then compared with `other`; `negate` is set for `!=`.
    Equality { other: Value, negate: bool },
    /// An `in` that waits for the answer of the object model.
    Membership,
    /// A node that is executed elsewhere.
    External,
}

/// `Frame`, as mathematics sees it.
#[allow(inconsistent_fields)]
pub enum FrameView {
    Block { block: Block, declaration: int, statement: int },
    List { list: StatementList, function: int, statement: int },
    Assign { assign: Assign },
    AssignMember { name: Seq<char>, value: Content },
    AssignKeyed { key: Node, value: Content },
    AssignKey { object: Content, value: Content },
    Yield { value: Content },
    Left { op: op::BinOp, right: Node },
    Right { op: op::BinOp, left: Content },
    LogicalLeft { op: LogOp, right: Node },
    LogicalRight,
    CompoundLocal { op: AssignOp, name: Seq<char>, current: Content },
    StoreLocal { name: Seq<char> },
    CompoundObject { op: AssignOp, name: Seq<char>, right: Node },
    CompoundCurrent { op: AssignOp, name: Seq<char>, right: Node, object: Content },
    CompoundMember { op: AssignOp, name: Seq<char>, object: Content, current: Content },
    StoreMember { name: Seq<char>, object: Content },
    Return,
    Var { list: VarDeclList, index: int },
    Let { list: Seq<(String, Option<Node>)>, index: int },
    Const { list: Seq<(String, Node)>, index: int },
    Pending(PendingView),
    Equality { other: Content, negate: bool },
    Membership,
    External,
}

impl<'a> View for Frame<'a> {
    type V = FrameView;

    open spec fn view(&self) -> FrameView {
        match *self {
            Frame::Block { block, declaration, statement } => FrameView::Block {
                block: *block,
                declaration: declaration as int,
                statement: statement as int,
            },
            Frame::List { list, function, statement } => FrameView::List {
                list: *list,
                function: function as int,
                statement: statement as int,
            },
            Frame::Assign { assign } => FrameView::Assign { assign: *assign },
            Frame::AssignMember { name, value } => FrameView::AssignMember {
                name: name@,
                value: value@,
            },
            Frame::AssignKeyed { key, value } => FrameView::AssignKeyed { key: *key, value: value@ },
            Frame::AssignKey { object, value } => FrameView::AssignKey {
                object: object@,
                value: value@,
            },
            Frame::Yield { value } => FrameView::Yield { value: value@ },
            Frame::Left { op, right } => FrameView::Left { op, right: *right },
            Frame::Right { op, left } => FrameView::Right { op, left: left@ },
            Frame::LogicalLeft { op, right } => FrameView::LogicalLeft { op, right: *right },
            Frame::LogicalRight => FrameView::LogicalRight,
            Frame::CompoundLocal { op, name, current } => FrameView::CompoundLocal {
                op,
                name: name@,
                current: current@,
            },
            Frame::StoreLocal { name } => FrameView::StoreLocal { name: name@ },
            Frame::CompoundObject { op, name, right } => FrameView::CompoundObject {
                op,
                name: name@,
                right: *right,
            },
            Frame::CompoundCurrent { op, name, right, object } => FrameView::CompoundCurrent {
                op,
                name: name@,
                right: *right,
                object: object@,
            },
            Frame::CompoundMember { op, name, object, current } => FrameView::CompoundMember {
                op,
                name: name@,
                object: object@,
                current: current@,
            },
            Frame::StoreMember { name, object } => FrameView::StoreMember {
                name: name@,
                object: object@,
            },
            Frame::Return => FrameView::Return,
            Frame::Var { list, index } => FrameView::Var { list: *list, index: index as int },
            Frame::Let { list, index } => FrameView::Let { list: list@, index: index as int },
            Frame::Const { list, index } => FrameView::Const { list: list@, index: index as int },
            Frame::Pending(p) => FrameView::Pending(p@),
            Frame::Equality { other, negate } => FrameView::Equality { other: other@, negate },
            Frame::Membership => FrameView::Membership,
            Frame::External => FrameView::External,
        }
    }
}

/// What a step hands out.
#[derive(Debug, PartialEq)]
pub enum Action<'a> {
    /// Nothing: the interpreter went on by itself. The next step takes no
    /// answer.
    Continue,
    /// Floating-point work. The answer is `Event::Float`.
    Float(Request),
    /// Make the object a primitive. The answer is `Event::Value`.
    ToPrimitive(Value),
    /// Whether the object has a property under the key. The answer is
    /// `Event::Bool`.
    HasProperty { object: Value, key: Value },
    /// Read the field of the object under the key. The answer is
    /// `Event::Value`.
    GetField { object: Value, key: Value },
    /// Write the value to the field of the object under the key. The answer
    /// is `Event::Done`.
    SetField { object: Value, key: Value, value: Value },
    /// Execute a node of a kind that this interpreter leaves to others. The
    /// answer is `Event::Completed`.
    Execute(&'a Node),
    /// Declare the function. The answer is `Event::Completed`.
    DeclareFunction(&'a FunctionDecl),
    /// The loaded node is finished: with its value, or with what it threw.
    Finished(Result<Value, Value>),
    /// The event was not the answer to the action that was handed out, or
    /// nothing is loaded. Nothing has changed.
    Rejected,
}

/// `Action`, as mathematics sees it.
pub enum ActionView {
    Continue,
    Float(RequestView),
    ToPrimitive(Content),
    HasProperty { object: Content, key: Content },
    GetField { object: Content, key: Content },
    SetField { object: Content, key: Content, value: Content },
    Execute(Node),
    DeclareFunction(FunctionDecl),
    Finished(Result<Content, Content>),
    Rejected,
}

impl<'a> View for Action<'a> {
    type V = ActionView;

    open spec fn view(&self) -> ActionView {
        match *self {
            Action::Continue => ActionView::Continue,
            Action::Float(request) => ActionView::Float(request@),
            Action::ToPrimitive(v) => ActionView::ToPrimitive(v@),
            Action::HasProperty { object, key } => ActionView::HasProperty {
                object: object@,
                key: key@,
            },
            Action::GetField { object, key } => ActionView::GetField { object: object@, key: key@ },
            Action::SetField { object, key, value } => ActionView::SetField {
                object: object@,
                key: key@,
                value: value@,
            },
            Action::Execute(node) => ActionView::Execute(*node),
            Action::DeclareFunction(decl) => ActionView::DeclareFunction(*decl),
            Action::Finished(Ok(v)) => ActionView::Finished(Ok(v@)),
            Action::Finished(Err(v)) => ActionView::Finished(Err(v@)),
            Action::Rejected => ActionView::Rejected,
        }
    }
}

/// What a step takes: the answer to the action of the step before.
#[derive(Debug, PartialEq)]
pub enum Event {
    /// No answer, after `Action::Continue` and at the start.
    Nothing,
    /// The answer of the floating-point unit.
    Float(Reply),
    /// A value from the object model.
    Value(Value),
    /// A yes or no from the object model.
    Bool(bool),
    /// A write was carried out.
    Done,
    /// A node was executed elsewhere: its value or what it threw, and
    /// whether a `return` is now in flight.
    Completed { result: Result<Value, Value>, returned: bool },
}

/// `Event`, as mathematics sees it.
pub enum EventView {
    Nothing,
    Float(ReplyView),
    Value(Content),
    Bool(bool),
    Done,
    Completed { result: Result<Content, Content>, returned: bool },
}

impl View for Event {
    type V = EventView;

    open spec fn view(&self) -> EventView {
        match *self {
            Event::Nothing => EventView::Nothing,
            Event::Float(reply) => EventView::Float(reply@),
            Event::Value(v) => EventView::Value(v@),
            Event::Bool(b) => EventView::Bool(b),
            Event::Done => EventView::Done,
            Event::Completed { result: Ok(v), returned } => EventView::Completed {
                result: Ok(v@),
                returned,
            },
            Event::Completed { result: Err(v), returned } => EventView::Completed {
                result: Err(v@),
                returned,
            },
        }
    }
}

/// The interpreter: the environment, the signal of a `return` in flight, and
/// the work that is under way.
#[derive(Debug, PartialEq)]
pub struct Interpreter<'a> {
    /// The scopes.
    pub environment: LexicalEnvironment,
    /// Whether a `return` is in flight. It is set here and cleared by
    /// whoever calls the function that returns.
    pub is_return: bool,
    /// What waits, innermost last.
    pub stack: Vec<Frame<'a>>,
    /// What is done next.
    pub control: Control<'a>,
}

/// The state of the interpreter, as mathematics sees it.
pub struct State {
    pub environment: Seq<ScopeView>,
    /// Whether a `return` is in flight.
    pub is_return: bool,
    /// What waits, innermost last.
    pub stack: Seq<FrameView>,
    pub control: ControlView,
}

impl<'a> View for Interpreter<'a> {
    type V = State;

    open spec fn view(&self) -> State {
        State {
            environment: self.environment@,
            is_return: self.is_return,
            stack: self.stack@.map_values(|f: Frame<'a>| f@),
            control: self.control@,
        }
    }
}

} // verus!
