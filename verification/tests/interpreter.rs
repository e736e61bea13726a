//! The interpreter, driven step by step.

use boa::ast::constant::Const;
use boa::ast::node::{Assign, BinOp, Block, Local, Node, StatementList, VarDecl, VarDeclList};
use boa::ast::op::{AssignOp, BitOp, CompOp, LogOp, NumOp};
use boa::bigint::BigInt;
use boa::environment::{LexicalEnvironment, Scope, VariableScope};
use boa::exec::state::{Action, Control, Event, Frame, Interpreter};
use boa::number::Double;
use boa::pending::{Outcome, Reply, Request};
use std::cmp::Ordering;
use boa::value::Value;

fn double(x: f64) -> Double {
    Double::from_bits(x.to_bits())
}

fn number(x: f64) -> Value {
    Value::rational(double(x))
}

fn text(s: &str) -> Value {
    Value::string(s.to_string())
}

fn big(n: i64) -> Node {
    Node::const_node(Const::from(BigInt::from_i64(n)))
}

fn local(name: &str) -> Node {
    Node::from(Local::from(name))
}

fn literal(n: i32) -> Node {
    Node::const_node(Const::from(n))
}

fn truth(b: bool) -> Node {
    Node::const_node(Const::from(b))
}

fn set(name: &str, value: Node) -> Node {
    Node::from(Assign::new(local(name), value))
}

fn block(statements: Vec<Node>) -> Node {
    Node::from(Block::from(statements))
}

fn float_unit(request: Request) -> Reply {
    match request {
        Request::Parse(s) => Reply::Number(double(s.trim().parse::<f64>().unwrap_or(f64::NAN))),
        Request::Round(n) => Reply::Number(double(n.to_decimal().parse::<f64>().unwrap())),
        Request::Arithmetic(op, x, y) => {
            let (x, y) = (f64::from_bits(x.bits), f64::from_bits(y.bits));
            Reply::Number(double(match op {
                NumOp::Add => x + y,
                NumOp::Sub => x - y,
                NumOp::Mul => x * y,
                NumOp::Div => x / y,
                NumOp::Mod => x % y,
                NumOp::Exp => x.powf(y),
            }))
        }
        Request::Format(d) => Reply::Text(format!("{}", f64::from_bits(d.bits))),
    }
}

/// What the run of a node handed out to the object model, and how it ended.
struct Run {
    result: Result<Value, Value>,
    steps: usize,
    deepest: usize,
    writes: Vec<(Value, Value, Value)>,
    reads: Vec<(Value, Value)>,
    handed_out: usize,
}

/// Runs a node to its end. The object model of this host answers every read
/// with 40 and has no property; every node that is handed out completes with
/// undefined.
fn run<'a>(interpreter: &mut Interpreter<'a>, node: &'a Node) -> Run {
    assert!(interpreter.load(node));
    let mut run = Run {
        result: Ok(Value::undefined()),
        steps: 0,
        deepest: 0,
        writes: Vec::new(),
        reads: Vec::new(),
        handed_out: 0,
    };
    let mut event = Event::Nothing;
    loop {
        run.steps += 1;
        let action = interpreter.step(event);
        run.deepest = run.deepest.max(interpreter.environment.depth());
        event = match action {
            Action::Continue => Event::Nothing,
            Action::Float(request) => Event::Float(float_unit(request)),
            Action::ToPrimitive(_) => Event::Value(text("primitive")),
            Action::HasProperty { .. } => Event::Bool(false),
            Action::GetField { object, key } => {
                run.reads.push((object, key));
                Event::Value(Value::integer(40))
            }
            Action::SetField { object, key, value } => {
                run.writes.push((object, key, value));
                Event::Done
            }
            Action::Execute(_) | Action::DeclareFunction(_) => {
                run.handed_out += 1;
                Event::Completed { result: Ok(Value::undefined()), returned: false }
            }
            Action::Finished(result) => {
                run.result = result;
                return run;
            }
            Action::Rejected => panic!("the interpreter rejected an event"),
        };
    }
}

#[test]
fn a_block_scoped_binding_is_gone_after_the_block() {
    // { let x = 1; x } x = 2
    let inner = block(vec![
        Node::let_decl(vec![("x".to_string(), Some(literal(1)))]),
        local("x"),
    ]);
    let outer = set("x", literal(2));
    let mut interpreter = Interpreter::new();
    let first = run(&mut interpreter, &inner);
    assert_eq!(first.result, Ok(Value::integer(1)));
    assert_eq!(first.deepest, 1);
    assert_eq!(interpreter.environment.depth(), 0);
    assert!(!interpreter.environment.has_binding("x"));
    assert_eq!(interpreter.environment.get_binding_value("x"), Value::undefined());
    assert_eq!(interpreter.environment, LexicalEnvironment::new());

    let second = run(&mut interpreter, &outer);
    assert_eq!(second.result, Ok(Value::integer(2)));
    assert!(interpreter.environment.has_binding("x"));
    assert_eq!(interpreter.environment.get_binding_value("x"), Value::integer(2));
}

#[test]
fn declarations_bind_their_names() {
    // { let a = 1, b; const c = 3, d = c; var e, f = 6; [a, b, c, d, e, f] }
    let program = block(vec![
        Node::let_decl(vec![("a".to_string(), Some(literal(1))), ("b".to_string(), None)]),
        Node::const_decl(vec![("c".to_string(), literal(3)), ("d".to_string(), local("c"))]),
        Node::from(VarDeclList::from(vec![VarDecl::new("e", None), VarDecl::new("f", Some(literal(6)))])),
        set("seen_a", local("a")),
        set("seen_b", local("b")),
        set("seen_c", local("c")),
        set("seen_d", local("d")),
    ]);
    let mut interpreter = Interpreter::new();
    assert_eq!(run(&mut interpreter, &program).result, Ok(Value::integer(3)));
    let environment = &interpreter.environment;
    assert_eq!(environment.get_binding_value("seen_a"), Value::integer(1));
    assert_eq!(environment.get_binding_value("seen_b"), Value::undefined());
    assert_eq!(environment.get_binding_value("seen_c"), Value::integer(3));
    assert_eq!(environment.get_binding_value("seen_d"), Value::integer(3));
    assert!(environment.has_binding("e"));
    assert_eq!(environment.get_binding_value("e"), Value::undefined());
    assert_eq!(environment.get_binding_value("f"), Value::integer(6));
    for name in ["a", "b", "c", "d"] {
        assert!(!environment.has_binding(name));
    }
    let empties =
        vec![Node::let_decl(vec![]), Node::const_decl(vec![]), Node::from(VarDeclList::from(vec![]))];
    for empty in &empties {
        let mut interpreter = Interpreter::new();
        assert_eq!(run(&mut interpreter, empty).result, Ok(Value::undefined()));
        assert_eq!(interpreter.environment, LexicalEnvironment::new());
    }
}

#[test]
fn an_inner_binding_hides_an_outer_one() {
    // x = 1; { let x = 5; x = 6; } x
    let program = vec![
        set("x", literal(1)),
        block(vec![
            Node::let_decl(vec![("x".to_string(), Some(literal(5)))]),
            set("x", literal(6)),
        ]),
        local("x"),
    ];
    let mut interpreter = Interpreter::new();
    assert_eq!(run(&mut interpreter, &program[0]).result, Ok(Value::integer(1)));
    assert_eq!(run(&mut interpreter, &program[1]).result, Ok(Value::integer(6)));
    assert_eq!(run(&mut interpreter, &program[2]).result, Ok(Value::integer(1)));
}

#[test]
fn a_var_in_a_block_belongs_to_the_function() {
    // { var v = 3; } v
    let inner = block(vec![Node::var_decl("v", Some(literal(3)))]);
    let mut interpreter = Interpreter::new();
    assert_eq!(run(&mut interpreter, &inner).result, Ok(Value::undefined()));
    assert_eq!(interpreter.environment.get_binding_value("v"), Value::integer(3));
    assert_eq!(interpreter.environment.depth(), 0);
}

#[test]
fn declarations_run_before_statements() {
    // { first = seen; var seen = 1; }  runs as  { var seen = 1; first = seen; }
    let hoisted = block(vec![set("first", local("seen")), Node::var_decl("seen", Some(literal(1)))]);
    let mut interpreter = Interpreter::new();
    assert_eq!(run(&mut interpreter, &hoisted).result, Ok(Value::integer(1)));
    assert_eq!(interpreter.environment.get_binding_value("first"), Value::integer(1));

    // a function declaration comes before a var statement that stands before it
    let declaration = || {
        Node::function_decl("f", vec![], StatementList::new(vec![], vec![]))
    };
    let sorted = Block::from(vec![
        literal(0),
        Node::var_decl("v", None),
        declaration(),
        Node::var_decl("w", None),
        literal(1),
        declaration(),
    ]);
    assert_eq!(
        sorted.hoistable(),
        &vec![declaration(), declaration(), Node::var_decl("v", None), Node::var_decl("w", None)]
    );
    assert_eq!(sorted.statements(), &vec![literal(0), literal(1)]);
}

#[test]
fn hoistable_order_compares_classes() {
    let function = Node::function_decl("f", vec![], StatementList::new(vec![], vec![]));
    let variable = Node::from(VarDeclList::from(vec![VarDecl::new("v", None)]));
    let other = literal(1);
    assert_eq!(Node::hoistable_order(&function, &function), Ordering::Equal);
    assert_eq!(Node::hoistable_order(&function, &variable), Ordering::Less);
    assert_eq!(Node::hoistable_order(&function, &other), Ordering::Less);
    assert_eq!(Node::hoistable_order(&variable, &function), Ordering::Greater);
    assert_eq!(Node::hoistable_order(&variable, &variable), Ordering::Equal);
    assert_eq!(Node::hoistable_order(&variable, &other), Ordering::Less);
    assert_eq!(Node::hoistable_order(&other, &function), Ordering::Greater);
    assert_eq!(Node::hoistable_order(&other, &variable), Ordering::Greater);
    assert_eq!(Node::hoistable_order(&other, &other), Ordering::Equal);
}

#[test]
fn a_return_leaves_every_enclosing_block() {
    // { a = 1; { b = 2; { return 7; c = 3; } d = 4; } e = 5; }
    let program = block(vec![
        set("a", literal(1)),
        block(vec![
            set("b", literal(2)),
            block(vec![Node::return_node(Some(literal(7))), set("c", literal(3))]),
            set("d", literal(4)),
        ]),
        set("e", literal(5)),
    ]);
    let mut interpreter = Interpreter::new();
    let outcome = run(&mut interpreter, &program);
    assert_eq!(outcome.result, Ok(Value::integer(7)));
    assert_eq!(outcome.deepest, 3);
    assert!(interpreter.is_return());
    assert_eq!(interpreter.environment.depth(), 0);
    assert_eq!(interpreter.environment.get_binding_value("a"), Value::integer(1));
    assert_eq!(interpreter.environment.get_binding_value("b"), Value::integer(2));
    for name in ["c", "d", "e"] {
        assert!(!interpreter.environment.has_binding(name), "{} was assigned", name);
    }
    interpreter.clear_return();
    assert!(!interpreter.is_return());
}

#[test]
fn a_return_without_expression_yields_undefined() {
    let program = block(vec![set("a", literal(1)), Node::return_node(None), set("b", literal(2))]);
    let mut interpreter = Interpreter::new();
    assert_eq!(run(&mut interpreter, &program).result, Ok(Value::undefined()));
    assert!(interpreter.is_return());
    assert!(!interpreter.environment.has_binding("b"));
    assert_eq!(interpreter.environment.depth(), 0);
}

#[test]
fn a_statement_runs_before_the_signal_is_looked_at() {
    // the signal is set from outside; the first statement still runs
    let program = block(vec![set("a", literal(1)), set("b", literal(2))]);
    let mut interpreter = Interpreter::new();
    interpreter.is_return = true;
    assert_eq!(run(&mut interpreter, &program).result, Ok(Value::integer(1)));
    assert!(interpreter.environment.has_binding("a"));
    assert!(!interpreter.environment.has_binding("b"));
}

#[test]
fn logical_operators_short_circuit() {
    let and = |lhs: Node, rhs: Node| Node::from(BinOp::new(LogOp::And.into(), lhs, rhs));
    let or = |lhs: Node, rhs: Node| Node::from(BinOp::new(LogOp::Or.into(), lhs, rhs));

    let mut interpreter = Interpreter::new();
    // false && (touched = 1)
    let program = and(truth(false), set("touched", literal(1)));
    assert_eq!(run(&mut interpreter, &program).result, Ok(Value::boolean(false)));
    assert!(!interpreter.environment.has_binding("touched"));
    // true || (touched = 1)
    let program = or(truth(true), set("touched", literal(1)));
    assert_eq!(run(&mut interpreter, &program).result, Ok(Value::boolean(true)));
    assert!(!interpreter.environment.has_binding("touched"));
    // true && (touched = 1)
    let program = and(truth(true), set("touched", literal(1)));
    assert_eq!(run(&mut interpreter, &program).result, Ok(Value::boolean(true)));
    assert_eq!(interpreter.environment.get_binding_value("touched"), Value::integer(1));
    // false || (other = 0)
    let program = or(truth(false), set("other", literal(0)));
    assert_eq!(run(&mut interpreter, &program).result, Ok(Value::boolean(false)));
    assert_eq!(interpreter.environment.get_binding_value("other"), Value::integer(0));
}

#[test]
fn assignment_to_a_member_evaluates_the_object_once() {
    // o.size = 3
    let by_name = Node::from(Assign::new(Node::get_const_field(local("o"), "size"), literal(3)));
    // o[k] = 4
    let by_key = Node::from(Assign::new(Node::get_field(local("o"), local("k")), literal(4)));
    let mut interpreter = Interpreter::new();
    interpreter.environment.create_mutable_binding("o".to_string(), false, VariableScope::Function);
    interpreter.environment.initialize_binding("o", Value::object(1));
    interpreter.environment.create_mutable_binding("k".to_string(), false, VariableScope::Function);
    interpreter.environment.initialize_binding("k", text("key"));

    let outcome = run(&mut interpreter, &by_name);
    assert_eq!(outcome.result, Ok(Value::integer(3)));
    assert_eq!(outcome.writes, vec![(Value::object(1), text("size"), Value::integer(3))]);
    let outcome = run(&mut interpreter, &by_key);
    assert_eq!(outcome.result, Ok(Value::integer(4)));
    assert_eq!(outcome.writes, vec![(Value::object(1), text("key"), Value::integer(4))]);
}

#[test]
fn compound_assignment_reads_combines_and_writes_back() {
    // o.size += 2, where the object model reads 40
    let member = Node::from(BinOp::new(
        AssignOp::Add.into(),
        Node::get_const_field(local("o"), "size"),
        literal(2),
    ));
    let mut interpreter = Interpreter::new();
    interpreter.environment.create_mutable_binding("o".to_string(), false, VariableScope::Function);
    interpreter.environment.initialize_binding("o", Value::object(1));
    let outcome = run(&mut interpreter, &member);
    assert_eq!(outcome.result, Ok(number(42.0)));
    assert_eq!(outcome.reads, vec![(Value::object(1), text("size"))]);
    assert_eq!(outcome.writes, vec![(Value::object(1), text("size"), number(42.0))]);

    // n -= 1
    let name = Node::from(BinOp::new(AssignOp::Sub.into(), local("n"), literal(1)));
    interpreter.environment.create_mutable_binding("n".to_string(), false, VariableScope::Function);
    interpreter.environment.initialize_binding("n", Value::integer(10));
    assert_eq!(run(&mut interpreter, &name).result, Ok(number(9.0)));
    assert_eq!(interpreter.environment.get_binding_value("n"), number(9.0));

    // a compound assignment to anything else is undefined, and its right-hand side does not run
    let neither = Node::from(BinOp::new(AssignOp::Add.into(), literal(1), set("touched", literal(1))));
    assert_eq!(run(&mut interpreter, &neither).result, Ok(Value::undefined()));
    assert!(!interpreter.environment.has_binding("touched"));
}

#[test]
fn run_assign_applies_the_operator_of_the_assignment() {
    let b = |n: i64| Value::bigint(BigInt::from_i64(n));
    let run_assign = |op: AssignOp, x: i64, y: i64| BinOp::run_assign(op, &b(x), &b(y));
    assert_eq!(run_assign(AssignOp::Add, 8, 2), Outcome::Value(b(10)));
    assert_eq!(run_assign(AssignOp::Sub, 8, 2), Outcome::Value(b(6)));
    assert_eq!(run_assign(AssignOp::Mul, 8, 2), Outcome::Value(b(16)));
    assert_eq!(run_assign(AssignOp::Div, 8, 2), Outcome::Value(b(4)));
    assert_eq!(run_assign(AssignOp::Mod, 8, 3), Outcome::Value(b(2)));
    assert_eq!(run_assign(AssignOp::And, 12, 10), Outcome::Value(b(8)));
    assert_eq!(run_assign(AssignOp::Or, 12, 10), Outcome::Value(b(14)));
    assert_eq!(run_assign(AssignOp::Xor, 12, 10), Outcome::Value(b(6)));
    assert_eq!(run_assign(AssignOp::Shl, 8, 2), Outcome::Value(b(32)));
    assert_eq!(run_assign(AssignOp::Shr, 8, 2), Outcome::Value(b(2)));
    assert!(matches!(run_assign(AssignOp::Exp, 8, 2), Outcome::Pending(_)));
}

#[test]
fn big_integers_without_a_result_throw() {
    let shift = Node::from(BinOp::new(BitOp::Shl.into(), big(1), big(1 << 40)));
    let divide = Node::from(BinOp::new(NumOp::Div.into(), big(1), big(0)));
    let remainder = Node::from(BinOp::new(NumOp::Mod.into(), big(1), big(0)));
    let mut interpreter = Interpreter::new();
    assert_eq!(
        run(&mut interpreter, &shift).result,
        Err(text("RangeError: Maximum BigInt size exceeded"))
    );
    assert_eq!(run(&mut interpreter, &divide).result, Err(text("RangeError: Division by zero")));
    assert_eq!(run(&mut interpreter, &remainder).result, Err(text("RangeError: Division by zero")));
    let fine = Node::from(BinOp::new(BitOp::Shr.into(), big(8), big(-1)));
    assert_eq!(run(&mut interpreter, &fine).result, Ok(Value::bigint(BigInt::from_i64(16))));
}

#[test]
fn a_thrown_value_pops_the_scopes_of_the_blocks_it_leaves() {
    // { a = 1; { 1n / 0n; b = 2; } c = 3; }
    let program = block(vec![
        set("a", literal(1)),
        block(vec![Node::from(BinOp::new(NumOp::Div.into(), big(1), big(0))), set("b", literal(2))]),
        set("c", literal(3)),
    ]);
    let mut interpreter = Interpreter::new();
    let outcome = run(&mut interpreter, &program);
    assert_eq!(outcome.result, Err(text("RangeError: Division by zero")));
    assert_eq!(outcome.deepest, 2);
    assert_eq!(interpreter.environment.depth(), 0);
    assert!(interpreter.is_idle());
    assert!(!interpreter.environment.has_binding("b"));
    assert!(!interpreter.environment.has_binding("c"));
}

#[test]
fn equality_operators() {
    let compare = |op: CompOp, lhs: Node, rhs: Node| {
        let program = Node::from(BinOp::new(op.into(), lhs, rhs));
        let mut interpreter = Interpreter::new();
        interpreter.environment.create_mutable_binding("o".to_string(), false, VariableScope::Function);
        interpreter.environment.initialize_binding("o", Value::object(1));
        interpreter.environment.create_mutable_binding("p".to_string(), false, VariableScope::Function);
        interpreter.environment.initialize_binding("p", Value::object(2));
        run(&mut interpreter, &program).result
    };
    let string = |s: &str| Node::const_node(Const::from(s));
    assert_eq!(compare(CompOp::Equal, string("1"), literal(1)), Ok(Value::boolean(true)));
    assert_eq!(compare(CompOp::NotEqual, string("1"), literal(1)), Ok(Value::boolean(false)));
    assert_eq!(compare(CompOp::StrictEqual, string("1"), literal(1)), Ok(Value::boolean(false)));
    assert_eq!(compare(CompOp::StrictNotEqual, string("1"), literal(1)), Ok(Value::boolean(true)));
    assert_eq!(compare(CompOp::Equal, literal(0), truth(false)), Ok(Value::boolean(true)));
    assert_eq!(compare(CompOp::Equal, local("o"), local("o")), Ok(Value::boolean(true)));
    assert_eq!(compare(CompOp::Equal, local("o"), local("p")), Ok(Value::boolean(false)));
    assert_eq!(compare(CompOp::NotEqual, local("o"), local("p")), Ok(Value::boolean(true)));
    assert_eq!(compare(CompOp::StrictEqual, local("o"), local("o")), Ok(Value::boolean(true)));
    // the object model of this host makes every object the string "primitive"
    assert_eq!(compare(CompOp::Equal, local("o"), string("primitive")), Ok(Value::boolean(true)));
    assert_eq!(compare(CompOp::Equal, string("other"), local("o")), Ok(Value::boolean(false)));
    assert_eq!(compare(CompOp::NotEqual, string("other"), local("o")), Ok(Value::boolean(true)));
    assert_eq!(compare(CompOp::LessThan, string("9"), literal(10)), Ok(Value::boolean(true)));
    assert_eq!(compare(CompOp::GreaterThan, string("x"), literal(10)), Ok(Value::boolean(false)));
    assert_eq!(compare(CompOp::In, string("size"), local("o")), Ok(Value::boolean(false)));
}

#[test]
fn an_event_that_is_no_answer_is_rejected() {
    let program = Node::from(BinOp::new(NumOp::Add.into(), literal(1), literal(2)));
    let mut interpreter = Interpreter::new();
    assert_eq!(interpreter.step(Event::Nothing), Action::Rejected);
    assert!(interpreter.load(&program));
    assert!(!interpreter.load(&program));
    let asked = interpreter.advance(Event::Nothing, 100);
    assert_eq!(asked, Action::Float(Request::Arithmetic(NumOp::Add, double(1.0), double(2.0))));
    assert_eq!(interpreter.control, Control::Waiting);
    assert_eq!(interpreter.stack.len(), 1);
    for wrong in [
        Event::Nothing,
        Event::Bool(true),
        Event::Done,
        Event::Value(Value::null()),
        Event::Float(Reply::Text("3".to_string())),
    ] {
        assert_eq!(interpreter.step(wrong), Action::Rejected);
        assert_eq!(interpreter.control, Control::Waiting);
        assert!(matches!(interpreter.stack.last(), Some(Frame::Pending(_))));
    }
    assert_eq!(interpreter.step(Event::Float(Reply::Number(double(3.0)))), Action::Continue);
    assert_eq!(interpreter.step(Event::Nothing), Action::Finished(Ok(number(3.0))));
    assert!(interpreter.is_idle());
}

#[test]
fn advance_stops_at_its_limit() {
    let program = block(vec![set("a", literal(1)), set("b", literal(2)), set("c", literal(3))]);
    let mut interpreter = Interpreter::new();
    assert!(interpreter.load(&program));
    assert_eq!(interpreter.advance(Event::Nothing, 0), Action::Continue);
    assert_eq!(interpreter.advance(Event::Nothing, 2), Action::Continue);
    assert_eq!(interpreter.advance(Event::Nothing, 1000), Action::Finished(Ok(Value::integer(3))));
    assert_eq!(interpreter.environment.get_binding_value("c"), Value::integer(3));
}

#[test]
fn nodes_of_other_kinds_are_handed_out() {
    let program = block(vec![Node::this(), Node::throw(literal(1)), set("a", literal(1))]);
    let mut interpreter = Interpreter::new();
    let outcome = run(&mut interpreter, &program);
    assert_eq!(outcome.handed_out, 2);
    assert_eq!(outcome.result, Ok(Value::integer(1)));

    // what is handed out may throw, or return
    let program = block(vec![Node::this(), set("a", literal(2))]);
    let mut interpreter = Interpreter::new();
    assert!(interpreter.load(&program));
    match interpreter.advance(Event::Nothing, 100) {
        Action::Execute(node) => assert_eq!(node, &Node::This),
        other => panic!("unexpected {:?}", other),
    }
    assert_eq!(interpreter.environment.depth(), 1);
    let thrown = Event::Completed { result: Err(text("thrown")), returned: false };
    assert_eq!(interpreter.advance(thrown, 100), Action::Finished(Err(text("thrown"))));
    assert_eq!(interpreter.environment.depth(), 0);

    let mut interpreter = Interpreter::new();
    assert!(interpreter.load(&program));
    let _ = interpreter.advance(Event::Nothing, 100);
    let returned = Event::Completed { result: Ok(text("back")), returned: true };
    assert_eq!(interpreter.advance(returned, 100), Action::Finished(Ok(text("back"))));
    assert!(interpreter.is_return());
    assert!(!interpreter.environment.has_binding("a"));
    assert_eq!(interpreter.environment.depth(), 0);
}

#[test]
fn the_environment_is_a_stack_of_scopes() {
    let mut environment = LexicalEnvironment::new();
    assert_eq!(environment.depth(), 0);
    assert_eq!(environment.pop(), None);
    environment.create_mutable_binding("g".to_string(), false, VariableScope::Block);
    assert_eq!(environment.get_binding_value("g"), Value::undefined());
    environment.initialize_binding("g", Value::integer(1));
    environment.push(Scope::new_function());
    environment.push(Scope::new_declarative());
    assert_eq!(environment.depth(), 2);
    environment.create_mutable_binding("f".to_string(), false, VariableScope::Function);
    environment.create_mutable_binding("b".to_string(), false, VariableScope::Block);
    environment.create_mutable_binding("g".to_string(), false, VariableScope::Block);
    environment.set_mutable_binding("g", Value::integer(2), true);
    environment.set_mutable_binding("missing", Value::integer(2), true);
    assert!(!environment.has_binding("missing"));
    assert_eq!(environment.get_binding_value("g"), Value::integer(2));
    // declaring a name again keeps its binding
    environment.create_mutable_binding("g".to_string(), true, VariableScope::Block);
    assert_eq!(environment.get_binding_value("g"), Value::integer(2));
    assert!(environment.pop().is_some());
    assert!(environment.has_binding("f"));
    assert!(!environment.has_binding("b"));
    assert_eq!(environment.get_binding_value("g"), Value::integer(1));
    assert!(environment.pop().is_some());
    assert!(!environment.has_binding("f"));
    assert_eq!(environment.pop(), None);
    assert_eq!(environment.depth(), 0);
}

#[test]
fn literals_have_their_values() {
    let mut interpreter = Interpreter::new();
    let cases = vec![
        (Node::const_node(Const::Undefined), Value::undefined()),
        (Node::const_node(Const::Null), Value::null()),
        (Node::const_node(Const::from(true)), Value::boolean(true)),
        (Node::const_node(Const::from(5)), Value::integer(5)),
        (Node::const_node(Const::from(double(2.5))), number(2.5)),
        (Node::const_node(Const::from("text")), text("text")),
        (big(5), Value::bigint(BigInt::from_i64(5))),
    ];
    for (node, value) in &cases {
        assert_eq!(&run(&mut interpreter, node).result, &Ok(value.share()));
    }
}
