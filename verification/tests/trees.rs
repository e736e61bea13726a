//! Syntax trees, built by hand as a parser would hand them over, and what the
//! library makes of them. A small host stands in for the rest of an engine:
//! the floating-point unit, the object model, and the nodes that the
//! interpreter leaves to others.

use std::collections::HashMap;

use boa::ast::constant::Const;
use boa::ast::node::{
    ArrowFunctionDecl, Assign, BinOp, Block, FormalParameter, FunctionDecl, Local, Node,
    StatementList, VarDecl, VarDeclList,
};
use boa::ast::op::{AssignOp, BitOp, CompOp, NumOp, UnaryOp};
use boa::bigint::BigInt;
use boa::environment::{LexicalEnvironment, Scope, VariableScope};
use boa::exec::state::{Action, Event, Interpreter};
use boa::number::Double;
use boa::pending::{Outcome, Reply, Request};
use boa::value::{Numeric, Value, ValueData};

fn double(x: f64) -> Double {
    Double::from_bits(x.to_bits())
}

fn number(x: f64) -> Value {
    Value::rational(double(x))
}

fn float_unit(request: Request) -> Reply {
    match request {
        Request::Parse(s) => Reply::Number(double(s.trim().parse::<f64>().unwrap_or(f64::NAN))),
        Request::Round(n) => Reply::Number(double(n.to_decimal().parse::<f64>().unwrap())),
        Request::Arithmetic(op, x, y) => {
            let (x, y) = (f64::from_bits(x.bits), f64::from_bits(y.bits));
            Reply::Number(double(match op {
                NumOp::Add => x + y,
                NumOp::Sub => x - y,
                NumOp::Mul => x * y,
                NumOp::Div => x / y,
                NumOp::Mod => x % y,
                NumOp::Exp => x.powf(y),
            }))
        }
        Request::Format(d) => Reply::Text(format!("{}", f64::from_bits(d.bits))),
    }
}

fn finish(outcome: Outcome) -> Value {
    let mut outcome = outcome;
    loop {
        match outcome {
            Outcome::Value(v) => return v,
            Outcome::Pending(p) => {
                let request = p.request().expect("a pending computation asks for something");
                outcome = p.supply(float_unit(request));
            }
        }
    }
}

fn as_f64(v: &Value) -> f64 {
    match v.to_number() {
        Numeric::Known(d) => f64::from_bits(d.bits),
        Numeric::Text(s) => s.trim().parse::<f64>().unwrap_or(f64::NAN),
        Numeric::Big(n) => n.to_decimal().parse::<f64>().unwrap(),
    }
}

/// What stands in for the rest of an engine.
struct Host<'a> {
    functions: HashMap<String, &'a FunctionDecl>,
    fields: HashMap<(u64, String), Value>,
    objects: u64,
    log: Vec<String>,
    broke: Vec<Option<String>>,
    handed_out: Vec<&'a Node>,
    rounds: usize,
}

impl<'a> Host<'a> {
    fn new() -> Host<'a> {
        Host {
            functions: HashMap::new(),
            fields: HashMap::new(),
            objects: 0,
            log: Vec::new(),
            broke: Vec::new(),
            handed_out: Vec::new(),
            rounds: 100,
        }
    }

    fn new_object(&mut self) -> Value {
        self.objects += 1;
        Value::object(self.objects)
    }

    fn key(object: &Value, key: &Value) -> (u64, String) {
        let handle = match object.data() {
            ValueData::Object(handle) => *handle,
            _ => 0,
        };
        let name = match key.data() {
            ValueData::String(s) => s.clone(),
            other => format!("{:?}", other),
        };
        (handle, name)
    }

    /// Drives an interpreter that has been started until it is finished.
    fn drive(&mut self, interpreter: &mut Interpreter<'a>, first: Action<'a>) -> Result<Value, Value> {
        let mut action = first;
        loop {
            let event = match action {
                Action::Continue => Event::Nothing,
                Action::Float(request) => Event::Float(float_unit(request)),
                Action::ToPrimitive(object) => {
                    let (handle, _) = Host::key(&object, &Value::undefined());
                    Event::Value(Value::string(format!("[object {}]", handle)))
                }
                Action::HasProperty { object, key } => {
                    Event::Bool(self.fields.contains_key(&Host::key(&object, &key)))
                }
                Action::GetField { object, key } => Event::Value(
                    self.fields
                        .get(&Host::key(&object, &key))
                        .map(|v| v.share())
                        .unwrap_or_else(Value::undefined),
                ),
                Action::SetField { object, key, value } => {
                    self.fields.insert(Host::key(&object, &key), value);
                    Event::Done
                }
                Action::Execute(node) => {
                    self.handed_out.push(node);
                    let environment =
                        std::mem::replace(&mut interpreter.environment, LexicalEnvironment::new());
                    let (environment, result, returned) = self.external(environment, node);
                    interpreter.environment = environment;
                    Event::Completed { result, returned }
                }
                Action::DeclareFunction(decl) => {
                    self.functions.insert(decl.name.clone(), decl);
                    Event::Completed { result: Ok(Value::undefined()), returned: false }
                }
                Action::Finished(result) => return result,
                Action::Rejected => panic!("the interpreter rejected an event"),
            };
            action = interpreter.step(event);
        }
    }

    /// Executes a node in an environment, and hands the environment back.
    fn exec(
        &mut self,
        environment: LexicalEnvironment,
        node: &'a Node,
    ) -> (LexicalEnvironment, Result<Value, Value>, bool) {
        let mut interpreter = Interpreter::with_environment(environment);
        assert!(interpreter.load(node));
        let first = interpreter.step(Event::Nothing);
        let result = self.drive(&mut interpreter, first);
        let returned = interpreter.is_return();
        (interpreter.into_environment(), result, returned)
    }

    /// Calls a function: its parameters are bound in a scope of its own, and
    /// the `return` that ends it is cleared.
    fn call(
        &mut self,
        environment: LexicalEnvironment,
        parameters: &'a [FormalParameter],
        body: &'a StatementList,
        arguments: Vec<Value>,
    ) -> (LexicalEnvironment, Result<Value, Value>) {
        let mut interpreter = Interpreter::with_environment(environment);
        interpreter.environment.push(Scope::new_function());
        for (i, parameter) in parameters.iter().enumerate() {
            let value = arguments.get(i).map(|v| v.share()).unwrap_or_else(Value::undefined);
            interpreter.environment.create_mutable_binding(
                parameter.name().to_string(),
                false,
                VariableScope::Function,
            );
            interpreter.environment.initialize_binding(parameter.name(), value);
        }
        let first = body.run(&mut interpreter);
        let result = self.drive(&mut interpreter, first);
        let returned = interpreter.is_return();
        interpreter.clear_return();
        let _ = interpreter.environment.pop();
        let result = match result {
            Ok(value) if returned => Ok(value),
            Ok(_) => Ok(Value::undefined()),
            Err(thrown) => Err(thrown),
        };
        (interpreter.into_environment(), result)
    }

    /// The nodes that the interpreter leaves to others, as far as these
    /// tests need them.
    fn external(
        &mut self,
        environment: LexicalEnvironment,
        node: &'a Node,
    ) -> (LexicalEnvironment, Result<Value, Value>, bool) {
        match node {
            Node::FunctionDecl(decl) => {
                self.functions.insert(decl.name.clone(), decl);
                (environment, Ok(Value::undefined()), false)
            }
            Node::ArrowFunctionDecl(_) | Node::FunctionExpr(_) | Node::New(_) => {
                let object = self.new_object();
                (environment, Ok(object), false)
            }
            Node::Break(label) => {
                self.broke.push(label.clone());
                (environment, Ok(Value::undefined()), false)
            }
            Node::UnaryOp(op, operand) => {
                let name = match &**operand {
                    Node::Local(local) => local.name.as_str(),
                    _ => return (environment, Ok(Value::undefined()), false),
                };
                let mut environment = environment;
                let before = as_f64(&environment.get_binding_value(name));
                let after = match op {
                    UnaryOp::IncrementPost | UnaryOp::IncrementPre => before + 1.0,
                    UnaryOp::DecrementPost | UnaryOp::DecrementPre => before - 1.0,
                    _ => before,
                };
                environment.set_mutable_binding(name, number(after), true);
                let result = match op {
                    UnaryOp::IncrementPost | UnaryOp::DecrementPost => number(before),
                    _ => number(after),
                };
                (environment, Ok(result), false)
            }
            Node::Call(callee, arguments) => {
                let mut environment = environment;
                let mut values = Vec::new();
                for argument in arguments.iter() {
                    let (next, result, _) = self.exec(environment, argument);
                    environment = next;
                    match result {
                        Ok(value) => values.push(value),
                        Err(thrown) => return (environment, Err(thrown), false),
                    }
                }
                match &**callee {
                    Node::Local(local) => match self.functions.get(local.name.as_str()).copied() {
                        Some(decl) => {
                            let (environment, result) =
                                self.call(environment, &decl.parameters, &decl.body, values);
                            (environment, result, false)
                        }
                        None => (environment, Ok(Value::undefined()), false),
                    },
                    Node::GetConstField(_, name) if name.as_str() == "log" => {
                        let line = match values.first().map(|v| v.to_text()) {
                            Some(boa::value::Text::Known(s)) => s,
                            _ => String::new(),
                        };
                        self.log.push(line);
                        (environment, Ok(Value::undefined()), false)
                    }
                    _ => (environment, Ok(Value::undefined()), false),
                }
            }
            Node::WhileLoop(condition, body) => {
                let mut environment = environment;
                let mut last = Value::undefined();
                for _ in 0..self.rounds {
                    let (next, test, _) = self.exec(environment, condition);
                    environment = next;
                    if !test.map(|v| v.is_true()).unwrap_or(false) {
                        break;
                    }
                    let breaks = self.broke.len();
                    let (next, result, returned) = self.exec(environment, body);
                    environment = next;
                    match result {
                        Ok(value) => last = value,
                        Err(thrown) => return (environment, Err(thrown), false),
                    }
                    if returned {
                        return (environment, Ok(last), true);
                    }
                    if self.broke.len() > breaks {
                        break;
                    }
                }
                (environment, Ok(last), false)
            }
            Node::DoWhileLoop(body, condition) => {
                let mut environment = environment;
                let mut last = Value::undefined();
                for _ in 0..self.rounds {
                    let breaks = self.broke.len();
                    let (next, result, returned) = self.exec(environment, body);
                    environment = next;
                    match result {
                        Ok(value) => last = value,
                        Err(thrown) => return (environment, Err(thrown), false),
                    }
                    if returned {
                        return (environment, Ok(last), true);
                    }
                    if self.broke.len() > breaks {
                        break;
                    }
                    let (next, test, _) = self.exec(environment, condition);
                    environment = next;
                    if !test.map(|v| v.is_true()).unwrap_or(false) {
                        break;
                    }
                }
                (environment, Ok(last), false)
            }
            _ => (environment, Ok(Value::undefined()), false),
        }
    }
}

/// Runs the statements of a program, in the order in which they are given,
/// and returns the value of the last one with the environment.
fn run_program<'a>(
    host: &mut Host<'a>,
    environment: LexicalEnvironment,
    program: &'a [Node],
) -> (LexicalEnvironment, Value) {
    let mut environment = environment;
    let mut last = Value::undefined();
    for node in program {
        let (next, result, _) = host.exec(environment, node);
        environment = next;
        last = result.expect("nothing is thrown");
    }
    (environment, last)
}

fn environment_with(bindings: &[(&str, Value)]) -> LexicalEnvironment {
    let mut environment = LexicalEnvironment::new();
    for (name, value) in bindings {
        environment.create_mutable_binding(name.to_string(), false, VariableScope::Function);
        environment.initialize_binding(name, value.share());
    }
    environment
}

/// Evaluates one expression with `a = 7`, `b = 2` and `d = 3`.
fn evaluate(node: Node) -> Value {
    let program = vec![node];
    let mut host = Host::new();
    let environment = environment_with(&[
        ("a", Value::integer(7)),
        ("b", Value::integer(2)),
        ("d", Value::integer(3)),
    ]);
    run_program(&mut host, environment, &program).1
}

/// Evaluates a compound assignment to `a` with `a = 7` and `b = 2`, and
/// returns its value and the value that `a` has afterwards.
fn assign(node: Node) -> (Value, Value) {
    let program = vec![node];
    let mut host = Host::new();
    let environment = environment_with(&[("a", Value::integer(7)), ("b", Value::integer(2))]);
    let (environment, value) = run_program(&mut host, environment, &program);
    (value, environment.get_binding_value("a"))
}

fn local(name: &str) -> Node {
    Node::from(Local::from(name))
}

fn integer_literal(n: i32) -> Node {
    Node::const_node(Const::from(n))
}

fn num_op(op: NumOp, lhs: Node, rhs: Node) -> Node {
    Node::from(BinOp::new(op.into(), lhs, rhs))
}

fn bit_op(op: BitOp, lhs: Node, rhs: Node) -> Node {
    Node::from(BinOp::new(op.into(), lhs, rhs))
}

fn comp_op(op: CompOp, lhs: Node, rhs: Node) -> Node {
    Node::from(BinOp::new(op.into(), lhs, rhs))
}

fn assign_op(op: AssignOp, lhs: Node, rhs: Node) -> Node {
    Node::from(BinOp::new(op.into(), lhs, rhs))
}

/// Checks numeric operations
#[test]
fn check_numeric_operations() {
    // a + b
    assert_eq!(evaluate(num_op(NumOp::Add, local("a"), local("b"))), number(9.0));
    // a+1
    assert_eq!(evaluate(num_op(NumOp::Add, local("a"), integer_literal(1))), number(8.0));
    // a - b
    assert_eq!(evaluate(num_op(NumOp::Sub, local("a"), local("b"))), number(5.0));
    // a-1
    assert_eq!(evaluate(num_op(NumOp::Sub, local("a"), integer_literal(1))), number(6.0));
    // a / b
    assert_eq!(evaluate(num_op(NumOp::Div, local("a"), local("b"))), number(3.5));
    // a/2
    assert_eq!(evaluate(num_op(NumOp::Div, local("a"), integer_literal(2))), number(3.5));
    // a * b
    assert_eq!(evaluate(num_op(NumOp::Mul, local("a"), local("b"))), number(14.0));
    // a*2
    assert_eq!(evaluate(num_op(NumOp::Mul, local("a"), integer_literal(2))), number(14.0));
    // a ** b
    assert_eq!(evaluate(num_op(NumOp::Exp, local("a"), local("b"))), number(49.0));
    // a**2
    assert_eq!(evaluate(num_op(NumOp::Exp, local("a"), integer_literal(2))), number(49.0));
    // a % b
    assert_eq!(evaluate(num_op(NumOp::Mod, local("a"), local("b"))), number(1.0));
    // a%2
    assert_eq!(evaluate(num_op(NumOp::Mod, local("a"), integer_literal(2))), number(1.0));
}

// Checks complex numeric operations.
#[test]
fn check_complex_numeric_operations() {
    // a + d*(b-3)+1
    let tree = num_op(
        NumOp::Add,
        num_op(
            NumOp::Add,
            local("a"),
            num_op(NumOp::Mul, local("d"), num_op(NumOp::Sub, local("b"), integer_literal(3))),
        ),
        integer_literal(1),
    );
    match &tree {
        Node::BinOp(outer) => {
            assert_eq!(outer.op(), NumOp::Add.into());
            assert_eq!(outer.rhs(), &integer_literal(1));
            match outer.lhs() {
                Node::BinOp(inner) => {
                    assert_eq!(inner.op(), NumOp::Add.into());
                    assert_eq!(inner.lhs(), &local("a"));
                }
                other => panic!("unexpected {:?}", other),
            }
        }
        other => panic!("unexpected {:?}", other),
    }
    assert_eq!(evaluate(tree), number(5.0));
}

/// Checks bitwise operations.
#[test]
fn check_bitwise_operations() {
    // a & b
    assert_eq!(evaluate(bit_op(BitOp::And, local("a"), local("b"))), Value::integer(2));
    // a | b
    assert_eq!(evaluate(bit_op(BitOp::Or, local("a"), local("b"))), Value::integer(7));
    // a ^ b
    assert_eq!(evaluate(bit_op(BitOp::Xor, local("a"), local("b"))), Value::integer(5));
    // a << b
    assert_eq!(evaluate(bit_op(BitOp::Shl, local("a"), local("b"))), Value::integer(28));
    // a >> b
    assert_eq!(evaluate(bit_op(BitOp::Shr, local("a"), local("b"))), Value::integer(1));
}

/// Checks assignment operations.
#[test]
fn check_assign_operations() {
    // a += b
    assert_eq!(assign(assign_op(AssignOp::Add, local("a"), local("b"))), (number(9.0), number(9.0)));
    // a -= b
    assert_eq!(assign(assign_op(AssignOp::Sub, local("a"), local("b"))), (number(5.0), number(5.0)));
    // a *= b
    assert_eq!(assign(assign_op(AssignOp::Mul, local("a"), local("b"))), (number(14.0), number(14.0)));
    // a **= b
    assert_eq!(assign(assign_op(AssignOp::Exp, local("a"), local("b"))), (number(49.0), number(49.0)));
    // a /= b
    assert_eq!(assign(assign_op(AssignOp::Div, local("a"), local("b"))), (number(3.5), number(3.5)));
    // a %= b
    assert_eq!(assign(assign_op(AssignOp::Mod, local("a"), local("b"))), (number(1.0), number(1.0)));
    // a &= b
    assert_eq!(
        assign(assign_op(AssignOp::And, local("a"), local("b"))),
        (Value::integer(2), Value::integer(2))
    );
    // a |= b
    assert_eq!(
        assign(assign_op(AssignOp::Or, local("a"), local("b"))),
        (Value::integer(7), Value::integer(7))
    );
    // a ^= b
    assert_eq!(
        assign(assign_op(AssignOp::Xor, local("a"), local("b"))),
        (Value::integer(5), Value::integer(5))
    );
    // a <<= b
    assert_eq!(
        assign(assign_op(AssignOp::Shl, local("a"), local("b"))),
        (Value::integer(28), Value::integer(28))
    );
    // a >>= b
    assert_eq!(
        assign(assign_op(AssignOp::Shr, local("a"), local("b"))),
        (Value::integer(1), Value::integer(1))
    );
    // a %= 10 / 2
    assert_eq!(
        assign(assign_op(AssignOp::Mod, local("a"), num_op(NumOp::Div, integer_literal(10), integer_literal(2)))),
        (number(2.0), number(2.0))
    );
}

#[test]
fn check_relational_operations() {
    // a < b
    assert_eq!(evaluate(comp_op(CompOp::LessThan, local("a"), local("b"))), Value::boolean(false));
    // a > b
    assert_eq!(evaluate(comp_op(CompOp::GreaterThan, local("a"), local("b"))), Value::boolean(true));
    // a <= b
    assert_eq!(
        evaluate(comp_op(CompOp::LessThanOrEqual, local("a"), local("b"))),
        Value::boolean(false)
    );
    // a >= b
    assert_eq!(
        evaluate(comp_op(CompOp::GreaterThanOrEqual, local("a"), local("b"))),
        Value::boolean(true)
    );
    // p in o
    let program = vec![comp_op(CompOp::In, local("p"), local("o"))];
    let mut host = Host::new();
    let object = host.new_object();
    host.fields.insert(Host::key(&object, &Value::string("size".to_string())), Value::integer(1));
    let environment =
        environment_with(&[("p", Value::string("size".to_string())), ("o", object.share())]);
    assert_eq!(run_program(&mut host, environment, &program).1, Value::boolean(true));
    let environment =
        environment_with(&[("p", Value::string("length".to_string())), ("o", object.share())]);
    assert_eq!(run_program(&mut host, environment, &program).1, Value::boolean(false));
    let environment = environment_with(&[("p", Value::string("size".to_string())), ("o", Value::integer(1))]);
    let (_, result, _) = host.exec(environment, &program[0]);
    assert_eq!(
        result,
        Err(Value::string("TypeError: the right operand of 'in' is not an Object.".to_string()))
    );
}

/// Declares the function of a program and calls it with one argument.
fn call_declared(program: &[Node], argument: Value) -> Value {
    let mut host = Host::new();
    let (environment, declared) = run_program(&mut host, LexicalEnvironment::new(), program);
    assert_eq!(declared, Value::undefined());
    assert_eq!(host.handed_out.len(), 1);
    assert_eq!(host.handed_out[0], &program[0]);
    let decl = host.functions.get("foo").copied().expect("foo is declared");
    let (environment, result) = host.call(environment, &decl.parameters, &decl.body, vec![argument]);
    assert!(!environment.has_binding("a"));
    result.expect("nothing is thrown")
}

/// Checks basic function declaration parsing.
#[test]
fn check_basic() {
    // function foo(a) { return a; }
    let program = vec![Node::function_decl(
        "foo",
        vec![FormalParameter::new("a", None, false)],
        StatementList::from(vec![Node::return_node(Some(local("a")))]),
    )];
    assert_eq!(call_declared(&program, Value::integer(5)), Value::integer(5));
}

/// Checks basic function declaration parsing with automatic semicolon insertion.
#[test]
fn check_basic_semicolon_insertion() {
    // function foo(a) { return a }
    let program = vec![Node::function_decl(
        "foo",
        vec![FormalParameter::new("a", None, false)],
        StatementList::from(vec![Node::return_node(Some(local("a")))]),
    )];
    assert_eq!(call_declared(&program, Value::string("x".to_string())), Value::string("x".to_string()));
}

/// Checks functions with empty returns.
#[test]
fn check_empty_return() {
    // function foo(a) { return; }
    let program = vec![Node::function_decl(
        "foo",
        vec![FormalParameter::new("a", None, false)],
        StatementList::from(vec![Node::Return(None)]),
    )];
    assert_eq!(call_declared(&program, Value::integer(5)), Value::undefined());
}

/// Checks functions with empty returns without semicolon
#[test]
fn check_empty_return_semicolon_insertion() {
    // function foo(a) { return }
    let program = vec![Node::function_decl(
        "foo",
        vec![FormalParameter::new("a", None, false)],
        StatementList::from(vec![Node::return_node(None)]),
    )];
    assert_eq!(program[0], Node::function_decl(
        "foo",
        vec![FormalParameter::new("a", None, false)],
        StatementList::from(vec![Node::Return(None)]),
    ));
    assert_eq!(call_declared(&program, Value::integer(5)), Value::undefined());
}

/// Checks rest operator parsing.
#[test]
fn check_rest_operator() {
    // function foo(a, ...b) {}
    let program = vec![Node::function_decl(
        "foo",
        vec![FormalParameter::new("a", None, false), FormalParameter::new("b", None, true)],
        StatementList::from(vec![]),
    )];
    match &program[0] {
        Node::FunctionDecl(decl) => {
            assert_eq!(decl.name, "foo");
            assert_eq!(decl.parameters.len(), 2);
            assert_eq!(decl.parameters[0].name(), "a");
            assert!(!decl.parameters[0].is_rest_param());
            assert_eq!(decl.parameters[0].init(), None);
            assert_eq!(decl.parameters[1].name(), "b");
            assert!(decl.parameters[1].is_rest_param());
            assert_eq!(decl.body, StatementList::new(vec![], vec![]));
        }
        other => panic!("unexpected {:?}", other),
    }
    assert_eq!(call_declared(&program, Value::integer(5)), Value::undefined());
}

/// Makes the function object of an arrow function and calls its body.
fn call_arrow(decl: ArrowFunctionDecl, arguments: Vec<Value>) -> Value {
    let program = vec![Node::from(decl)];
    let mut host = Host::new();
    let (environment, function) = run_program(&mut host, LexicalEnvironment::new(), &program);
    assert_eq!(function, Value::object(1));
    assert_eq!(host.handed_out, vec![&program[0]]);
    match &program[0] {
        Node::ArrowFunctionDecl(decl) => match &*decl.body {
            Node::StatementList(body) => {
                host.call(environment, &decl.params, body, arguments).1.expect("nothing is thrown")
            }
            other => panic!("unexpected {:?}", other),
        },
        other => panic!("unexpected {:?}", other),
    }
}

fn parameters(names: &[(&str, bool)]) -> Vec<FormalParameter> {
    names.iter().map(|(name, rest)| FormalParameter::new(name, None, *rest)).collect()
}

/// Checks an arrow function with only a rest parameter.
#[test]
fn check_arrow_only_rest() {
    // (...a) => {}
    let decl = ArrowFunctionDecl::new(
        vec![FormalParameter::new("a", None, true)],
        Node::StatementList(StatementList::new(vec![], vec![])),
    );
    assert_eq!(decl.params.len(), 1);
    assert!(decl.params[0].is_rest_param());
    assert_eq!(call_arrow(decl, vec![Value::integer(1)]), Value::undefined());
}

/// Checks an arrow function with a rest parameter.
#[test]
fn check_arrow_rest() {
    // (a, b, ...c) => {}
    let decl = ArrowFunctionDecl::new(
        parameters(&[("a", false), ("b", false), ("c", true)]),
        Node::StatementList(StatementList::new(vec![], vec![])),
    );
    assert_eq!(
        decl.params.iter().map(|p| (p.name(), p.is_rest_param())).collect::<Vec<_>>(),
        vec![("a", false), ("b", false), ("c", true)]
    );
    assert_eq!(call_arrow(decl, vec![]), Value::undefined());
}

/// Checks an arrow function with expression return.
#[test]
fn check_arrow() {
    // (a, b) => { return a + b; }
    let decl = ArrowFunctionDecl::new(
        parameters(&[("a", false), ("b", false)]),
        Node::statement_list(vec![Node::return_node(Some(num_op(
            NumOp::Add,
            local("a"),
            local("b"),
        )))]),
    );
    assert_eq!(call_arrow(decl, vec![Value::integer(2), Value::integer(3)]), number(5.0));
}

/// Checks an arrow function with expression return and automatic semicolon insertion
#[test]
fn check_arrow_semicolon_insertion() {
    // (a, b) => { return a + b }
    let decl = ArrowFunctionDecl::new(
        parameters(&[("a", false), ("b", false)]),
        Node::statement_list(vec![Node::return_node(Some(num_op(
            NumOp::Add,
            local("a"),
            local("b"),
        )))]),
    );
    assert_eq!(
        call_arrow(decl, vec![Value::string("2".to_string()), Value::integer(3)]),
        Value::string("23".to_string())
    );
}

/// Checks arrow function with empty return
#[test]
fn check_arrow_epty_return() {
    // (a, b) => { return; }
    let decl = ArrowFunctionDecl::new(
        parameters(&[("a", false), ("b", false)]),
        Node::statement_list(vec![Node::Return(None)]),
    );
    assert_eq!(call_arrow(decl, vec![Value::integer(2), Value::integer(3)]), Value::undefined());
}

/// Checks an arrow function with empty return, with automatic semicolon insertion.
#[test]
fn check_arrow_empty_return_semicolon_insertion() {
    // (a, b) => { return }
    let decl = ArrowFunctionDecl::new(
        parameters(&[("a", false), ("b", false)]),
        Node::statement_list(vec![Node::Return(None), integer_literal(1)]),
    );
    assert_eq!(call_arrow(decl, vec![]), Value::undefined());
}

/// Runs a block and returns its value and the environment it leaves.
fn check_block(block: Block) -> (Value, LexicalEnvironment, Vec<String>) {
    let program = vec![Node::from(block)];
    let mut host = Host::new();
    let (environment, value) = run_program(&mut host, LexicalEnvironment::new(), &program);
    assert_eq!(environment.depth(), 0);
    (value, environment, host.functions.keys().cloned().collect())
}

fn hello() -> Node {
    Node::from(FunctionDecl::new(
        "hello",
        vec![],
        StatementList::from(vec![Node::return_node(Some(integer_literal(10)))]),
    ))
}

fn var(name: &str, init: Option<Node>) -> Node {
    VarDeclList::from(vec![VarDecl::new(name, init)]).into()
}

fn call_hello() -> Node {
    Node::call(local("hello"), vec![])
}

fn increment(name: &str) -> Node {
    Node::unary_op(UnaryOp::IncrementPost, local(name))
}

#[test]
fn empty() {
    // {}
    let block = Block::from(vec![]);
    assert_eq!(block, Block::new(vec![], vec![]));
    let (value, environment, _) = check_block(block);
    assert_eq!(value, Value::null());
    assert_eq!(environment, LexicalEnvironment::new());
}

#[test]
fn non_empty() {
    // { var a = 10; a++; }
    let block = Block::from(vec![var("a", Some(integer_literal(10))), increment("a")]);
    assert_eq!(block.hoistable(), &vec![var("a", Some(integer_literal(10)))]);
    assert_eq!(block.statements(), &vec![increment("a")]);
    let (value, environment, _) = check_block(block);
    assert_eq!(value, number(10.0));
    assert_eq!(environment.get_binding_value("a"), number(11.0));

    // { function hello() { return 10 } var a = hello(); a++; }
    let block = Block::from(vec![hello(), var("a", Some(call_hello())), increment("a")]);
    assert_eq!(block.hoistable(), &vec![hello(), var("a", Some(call_hello()))]);
    assert_eq!(block.statements(), &vec![increment("a")]);
    let (value, environment, functions) = check_block(block);
    assert_eq!(value, number(10.0));
    assert_eq!(environment.get_binding_value("a"), number(11.0));
    assert_eq!(functions, vec!["hello".to_string()]);
}

#[test]
fn hoisting() {
    // { var a = hello(); a++; function hello() { return 10 } }
    let block = Block::from(vec![var("a", Some(call_hello())), increment("a"), hello()]);
    assert_eq!(block, Block::from(vec![hello(), var("a", Some(call_hello())), increment("a")]));
    assert_eq!(block, Block::new(vec![hello(), var("a", Some(call_hello()))], vec![increment("a")]));
    let (value, environment, _) = check_block(block);
    assert_eq!(value, number(10.0));
    assert_eq!(environment.get_binding_value("a"), number(11.0));

    // { a = 10; a++; var a; }
    let assignment = || Node::from(Assign::new(local("a"), integer_literal(10)));
    let block = Block::from(vec![assignment(), increment("a"), var("a", None)]);
    assert_eq!(block, Block::from(vec![var("a", None), assignment(), increment("a")]));
    assert_eq!(block, Block::new(vec![var("a", None)], vec![assignment(), increment("a")]));
    let (value, environment, _) = check_block(block);
    assert_eq!(value, number(10.0));
    assert_eq!(environment.get_binding_value("a"), number(11.0));
}

/// Runs a loop whose body breaks, and returns the labels of the breaks.
fn check_break(program: Vec<Node>) -> Vec<Option<String>> {
    let mut host = Host::new();
    let (environment, _) = run_program(&mut host, LexicalEnvironment::new(), &program);
    assert_eq!(environment.depth(), 0);
    assert_eq!(host.handed_out[0], &program[0]);
    host.broke
}

fn yes() -> Node {
    Node::const_node(Const::from(true))
}

#[test]
fn check_inline() {
    // while (true) break;
    assert_eq!(check_break(vec![Node::while_loop(yes(), Node::Break(None))]), vec![None]);
}

#[test]
fn check_new_line() {
    // while (true)
    //     break;
    assert_eq!(check_break(vec![Node::while_loop(yes(), Node::break_node(None))]), vec![None]);
}

#[test]
fn check_inline_block_semicolon_insertion() {
    // while (true) {break}
    assert_eq!(
        check_break(vec![Node::while_loop(
            yes(),
            Node::from(Block::new(vec![], vec![Node::Break(None)])),
        )]),
        vec![None]
    );
}

#[test]
fn check_new_line_semicolon_insertion() {
    // while (true) {
    //     break test
    // }
    assert_eq!(
        check_break(vec![Node::while_loop(
            yes(),
            Node::from(Block::new(vec![], vec![Node::break_node(Some("test"))])),
        )]),
        vec![Some("test".to_string())]
    );
}

#[test]
fn check_inline_block() {
    // while (true) {break;}
    assert_eq!(
        check_break(vec![Node::while_loop(
            yes(),
            Node::from(Block::new(vec![], vec![Node::Break(None)])),
        )]),
        vec![None]
    );
}

#[test]
fn check_new_line_block() {
    // while (true) {
    //     break test;
    // }
    assert_eq!(
        check_break(vec![Node::while_loop(
            yes(),
            Node::from(Block::new(vec![], vec![Node::break_node(Some("test"))])),
        )]),
        vec![Some("test".to_string())]
    );
}

#[test]
fn check_new_line_block_empty() {
    // while (true) {
    //     break;
    // }
    assert_eq!(
        check_break(vec![Node::while_loop(
            yes(),
            Node::from(Block::from(vec![Node::Break(None)])),
        )]),
        vec![None]
    );
}

#[test]
fn check_new_line_block_empty_semicolon_insertion() {
    // while (true) {
    //     break
    // }
    assert_eq!(
        check_break(vec![Node::while_loop(
            yes(),
            Node::from(Block::new(vec![], vec![Node::Break(None)])),
        )]),
        vec![None]
    );
}

/// Checks do-while statement parsing.
#[test]
fn check_do_while() {
    // do { a += 1; } while (true)
    let program = vec![Node::do_while_loop(
        Node::from(Block::from(vec![Node::from(BinOp::new(
            AssignOp::Add.into(),
            local("a"),
            integer_literal(1),
        ))])),
        yes(),
    )];
    let mut host = Host::new();
    host.rounds = 5;
    let environment = environment_with(&[("a", Value::integer(0))]);
    let (environment, value) = run_program(&mut host, environment, &program);
    assert_eq!(value, number(5.0));
    assert_eq!(environment.get_binding_value("a"), number(5.0));
    assert_eq!(environment.depth(), 0);
}

// Checks automatic semicolon insertion after do-while.
#[test]
fn check_do_while_semicolon_insertion() {
    // var i = 0;
    // do {console.log("hello");} while(i++ < 10) console.log("end");
    let log = |line: &str| {
        Node::call(
            Node::get_const_field(local("console"), "log"),
            vec![Node::const_node(Const::from(line))],
        )
    };
    let program = vec![
        Node::var_decl("i", Some(integer_literal(0))),
        Node::do_while_loop(
            Node::from(Block::from(vec![log("hello")])),
            Node::from(BinOp::new(CompOp::LessThan.into(), increment("i"), integer_literal(10))),
        ),
        log("end"),
    ];
    let mut host = Host::new();
    let (environment, _) = run_program(&mut host, LexicalEnvironment::new(), &program);
    assert_eq!(environment.get_binding_value("i"), number(11.0));
    let mut expected = vec!["hello".to_string(); 11];
    expected.push("end".to_string());
    assert_eq!(host.log, expected);
}

/// Should be parsed as `new Class().method()` instead of `new (Class().method())`
#[test]
fn check_construct_call_precedence() {
    // new Date().getTime()
    let program = vec![Node::call(
        Node::get_const_field(Node::new(Node::call(local("Date"), Vec::new())), "getTime"),
        Vec::new(),
    )];
    match &program[0] {
        Node::Call(callee, arguments) => {
            assert!(arguments.is_empty());
            match &**callee {
                Node::GetConstField(object, name) => {
                    assert_eq!(name, "getTime");
                    assert_eq!(**object, Node::New(Box::new(Node::call(local("Date"), vec![]))));
                }
                other => panic!("unexpected {:?}", other),
            }
        }
        other => panic!("unexpected {:?}", other),
    }
    let mut interpreter = Interpreter::new();
    assert!(interpreter.load(&program[0]));
    assert_eq!(interpreter.step(Event::Nothing), Action::Execute(&program[0]));
}

#[test]
fn assign_operator_precedence() {
    // a = a + 1
    let program = vec![Node::from(Assign::new(local("a"), num_op(NumOp::Add, local("a"), integer_literal(1))))];
    let mut host = Host::new();
    let environment = environment_with(&[("a", Value::integer(1))]);
    let (environment, value) = run_program(&mut host, environment, &program);
    assert_eq!(value, number(2.0));
    assert_eq!(environment.get_binding_value("a"), number(2.0));
}

#[test]
fn tests_hoisting() {
    // var a = hello(); a++; function hello() { return 10 }
    let list = StatementList::from(vec![var("a", Some(call_hello())), increment("a"), hello()]);
    assert_eq!(list, StatementList::from(vec![hello(), var("a", Some(call_hello())), increment("a")]));
    assert_eq!(list.functions.len(), 1);
    assert_eq!(list.functions[0].name, "hello");
    assert_eq!(list.statements, vec![var("a", Some(call_hello())), increment("a")]);
    let program = vec![Node::from(list)];
    let mut host = Host::new();
    let (environment, value) = run_program(&mut host, LexicalEnvironment::new(), &program);
    assert_eq!(value, number(10.0));
    assert_eq!(environment.get_binding_value("a"), number(11.0));

    // a = 10; a++; var a;
    let assignment = || Node::from(Assign::new(local("a"), integer_literal(10)));
    let list = StatementList::from(vec![assignment(), increment("a"), var("a", None)]);
    assert_eq!(list, StatementList::from(vec![var("a", None), assignment(), increment("a")]));
    assert_eq!(list.statements, vec![var("a", None), assignment(), increment("a")]);
    let program = vec![Node::from(list)];
    let mut host = Host::new();
    let (environment, value) = run_program(&mut host, LexicalEnvironment::new(), &program);
    assert_eq!(value, number(10.0));
    assert_eq!(environment.get_binding_value("a"), number(11.0));
}

#[test]
fn operators_on_big_integers_need_no_float_unit() {
    let two = Value::bigint(BigInt::from_i64(2));
    let three = Value::bigint(BigInt::from_i64(3));
    assert_eq!(finish(two.add(&three)), Value::bigint(BigInt::from_i64(5)));
}
