use jinko::instruction::{FunctionKind, Instruction, JkInst};
use jinko::parser::Construct;

#[test]
fn t_var_assign_valid() {
    assert_eq!(
        Construct::var_assignment("x = 12;").unwrap().1.mutable(),
        false
    );
    assert_eq!(
        Construct::var_assignment("x = 12;").unwrap().1.symbol(),
        "x"
    );

    assert_eq!(
        Construct::var_assignment("mut x_99 = 129;")
            .unwrap()
            .1
            .mutable(),
        true
    );
    assert_eq!(
        Construct::var_assignment("mut x_99 = 129;")
            .unwrap()
            .1
            .symbol(),
        "x_99"
    );

    assert_eq!(
        Construct::var_assignment("mut_x_99 = 129;")
            .unwrap()
            .1
            .mutable(),
        false
    );
    assert_eq!(
        Construct::var_assignment("mut_x_99 = 129;")
            .unwrap()
            .1
            .symbol(),
        "mut_x_99"
    );

    assert_eq!(
        Construct::var_assignment("mut mut_x_99 = 129;")
            .unwrap()
            .1
            .mutable(),
        true
    );
    assert_eq!(
        Construct::var_assignment("mut mut_x_99 = 129;")
            .unwrap()
            .1
            .symbol(),
        "mut_x_99"
    );

    assert_eq!(
        Construct::var_assignment("mut\nname = 129;")
            .unwrap()
            .1
            .mutable(),
        true
    );

    match Construct::var_assignment("mut x=12;") {
        Ok(_) => assert!(true),
        Err(_) => assert!(false, "Equal stuck to id is allowed"),
    }
    match Construct::var_assignment("mut x= 12;") {
        Ok(_) => assert!(true),
        Err(_) => assert!(false, "Equal stuck to id is allowed"),
    }
    match Construct::var_assignment("mut x =12;") {
        Ok(_) => assert!(true),
        Err(_) => assert!(false, "Equal stuck to value is allowed"),
    }
}

#[test]
fn t_var_assign_invalid() {
    match Construct::var_assignment("mutable x = 12") {
        Ok(_) => assert!(false, "Mutable isn't mut"),
        Err(_) => assert!(true),
    }
}

#[test]
fn t_function_call_no_args_valid() {
    assert_eq!(Construct::function_call("fn()").unwrap().1.name(), "fn");
    assert_eq!(Construct::function_call("fn()").unwrap().1.args().len(), 0);

    assert_eq!(Construct::function_call("fn(    )").unwrap().1.name(), "fn");
    assert_eq!(
        Construct::function_call("fn(    )").unwrap().1.args().len(),
        0
    );
}

#[test]
fn t_function_call_valid() {
    assert_eq!(Construct::function_call("fn(2)").unwrap().1.name(), "fn");
    assert_eq!(Construct::function_call("fn(2)").unwrap().1.args().len(), 1);

    assert_eq!(
        Construct::function_call("fn(1, 2, 3)").unwrap().1.name(),
        "fn"
    );
    assert_eq!(
        Construct::function_call("fn(a, hey(), 3.12)")
            .unwrap()
            .1
            .name(),
        "fn"
    );
    assert_eq!(
        Construct::function_call("fn(1, 2, 3)")
            .unwrap()
            .1
            .args()
            .len(),
        3
    );

    assert_eq!(
        Construct::function_call("fn(1   , 2,3)").unwrap().1.name(),
        "fn"
    );
    assert_eq!(
        Construct::function_call("fn(1   , 2,3)")
            .unwrap()
            .1
            .args()
            .len(),
        3
    );
}

#[test]
fn t_function_call_invalid() {
    match Construct::function_call("fn(") {
        Ok(_) => assert!(false, "Unterminated parenthesis"),
        Err(_) => assert!(true),
    }
    match Construct::function_call("fn))") {
        Ok(_) => assert!(false, "Wrong parenthesis"),
        Err(_) => assert!(true),
    }
    match Construct::function_call("fn((") {
        Ok(_) => assert!(false, "Wrong parenthesis again"),
        Err(_) => assert!(true),
    }
    match Construct::function_call("fn((") {
        Ok(_) => assert!(false, "Wrong parenthesis again"),
        Err(_) => assert!(true),
    }
    match Construct::function_call("fn((") {
        Ok(_) => assert!(false, "Wrong parenthesis again"),
        Err(_) => assert!(true),
    }
}

#[test]
fn t_function_call_multiarg_invalid() {
    match Construct::function_call("fn(1, 2, 3, 4,)") {
        Ok(_) => assert!(false, "Unterminated arglist"),
        Err(_) => assert!(true),
    }
    match Construct::function_call("fn(1, 2, 3, 4,   )") {
        Ok(_) => assert!(false, "Unterminated arglist"),
        Err(_) => assert!(true),
    }
}

#[test]
fn t_block_empty() {
    assert_eq!(Construct::block("{}").unwrap().1.instructions().len(), 0);
}

#[test]
fn t_block_valid_oneline() {
    assert_eq!(
        Construct::block("{ 12a; }").unwrap().1.instructions().len(),
        1
    );
    assert_eq!(
        Construct::block("{ 12a; 14a; }")
            .unwrap()
            .1
            .instructions()
            .len(),
        2
    );
    assert_eq!(
        Construct::block("{ 12a; 14a }")
            .unwrap()
            .1
            .instructions()
            .len(),
        1
    );

    match Construct::block("{ 12a; 14a }").unwrap().1.last() {
        Some(_) => assert!(true),
        None => assert!(false, "Last instruction here is valid"),
    }
}

#[test]
fn t_id_type_valid() {
    assert_eq!(
        Construct::identifier_type("name: some_type")
            .unwrap()
            .1
            .name(),
        "name"
    );
    assert_eq!(
        Construct::identifier_type("name: some_type")
            .unwrap()
            .1
            .ty(),
        "some_type"
    );

    assert_eq!(
        Construct::identifier_type("name     :some_type")
            .unwrap()
            .1
            .name(),
        "name"
    );
    assert_eq!(
        Construct::identifier_type("name     :some_type")
            .unwrap()
            .1
            .ty(),
        "some_type"
    );
}

#[test]
fn t_args_dec_empty() {
    assert_eq!(Construct::args_dec("()").unwrap().1.len(), 0);
}

#[test]
fn t_args_dec_one_arg() {
    assert_eq!(Construct::args_dec("(name :ty)").unwrap().1.len(), 1);
}

#[test]
fn t_args_dec_valid() {
    assert_eq!(
        Construct::args_dec("(name :ty, name1      : type1)")
            .unwrap()
            .1
            .len(),
        2
    );
}

#[test]
fn t_return_type_void() {
    assert_eq!(Construct::return_type(""), Ok(("", None)));
    assert_eq!(Construct::return_type("    "), Ok(("", None)));
    assert_eq!(
        Construct::return_type("        { 12 }"),
        Ok(("{ 12 }", None))
    );
}

#[test]
fn t_block_invalid_oneline() {
    match Construct::block("{ 12a;") {
        Ok(_) => assert!(false, "Unterminated bracket"),
        Err(_) => assert!(true),
    }

    match Construct::block("{ 12a") {
        Ok(_) => assert!(false, "Unterminated bracket but on instruction"),
        Err(_) => assert!(true),
    }

    match Construct::block("{ 12a; 13a") {
        Ok(_) => assert!(false, "Unterminated bracket but on second instruction"),
        Err(_) => assert!(true),
    }

    match Construct::block("12a; 13a }") {
        Ok(_) => assert!(false, "Not starting with a bracket"),
        Err(_) => assert!(true),
    }
}

#[test]
fn t_block_valid_multiline() {
    let input = r#"{
            12a;
            12a;
            13a;
        }"#;

    assert_eq!(Construct::block(input).unwrap().1.instructions().len(), 3);

    let input = r#"{
            12a;
            12a;
            13a;
            14a
        }"#;

    assert_eq!(Construct::block(input).unwrap().1.instructions().len(), 3);

    let input = r#"{
            true;
            false
        }"#;

    assert_eq!(Construct::block(input).unwrap().1.instructions().len(), 1);
}

#[test]
fn t_return_type_non_void() {
    assert_eq!(
        Construct::return_type("-> int"),
        Ok(("", Some("int".to_owned())))
    );
    assert_eq!(
        Construct::return_type("   ->    int   {"),
        Ok(("{", Some("int".to_owned())))
    );
}

#[test]
fn t_function_declaration_valid_simple() {
    let func = Construct::function_declaration("func something() {}")
        .unwrap()
        .1;

    assert_eq!(func.name(), "something");
    assert_eq!(func.ty(), None);
    assert_eq!(func.args().len(), 0);
    assert_eq!(func.kind(), FunctionKind::Func);
}

#[test]
fn t_function_declaration_valid() {
    let func = Construct::function_declaration("func add(lhs: ty, rhs: ty) -> ty {}")
        .unwrap()
        .1;

    assert_eq!(func.name(), "add");
    assert_eq!(func.ty(), Some("ty"));
    assert_eq!(func.args().len(), 2);
    assert_eq!(func.kind(), FunctionKind::Func);
}

#[test]
fn t_test_valid() {
    let test = Construct::test_declaration("test add() {}").unwrap().1;

    assert_eq!(test.name(), "add");
    assert_eq!(test.ty(), None);
    assert_eq!(test.kind(), FunctionKind::Test);
}

#[test]
fn t_test_invalid() {
    match Construct::test_declaration("test add(a: int) -> int {}") {
        Ok(_) => assert!(false, "Can't have arguments to a test"),
        Err(_) => assert!(true),
    };
}

#[test]
fn t_mock_valid() {
    let test = Construct::mock_declaration("mock add(lhs: ty, rhs: ty) {}")
        .unwrap()
        .1;

    assert_eq!(test.name(), "add");
    assert_eq!(test.ty(), None);
    assert_eq!(test.kind(), FunctionKind::Mock);
}

#[test]
fn t_ext_valid() {
    let test = Construct::ext_declaration("ext func add(lhs: ty, rhs: ty) -> ty;")
        .unwrap()
        .1;

    assert_eq!(test.name(), "add");
    assert_eq!(test.ty(), Some("ty"));
    assert_eq!(test.kind(), FunctionKind::Ext);
}

#[test]
fn t_ext_valid_void() {
    let test = Construct::ext_declaration("ext func add(lhs: ty, rhs: ty);")
        .unwrap()
        .1;

    assert_eq!(test.name(), "add");
    assert_eq!(test.ty(), None);
    assert_eq!(test.kind(), FunctionKind::Ext);
}

#[test]
fn t_ext_invalid() {
    match Construct::ext_declaration("ext func add(a: int) -> int {}") {
        Ok(_) => assert!(false, "Can't have a block for an ext function"),
        Err(_) => assert!(true),
    };
}

#[test]
fn t_if_else_just_if() {
    let ie = Construct::if_else("if condition {}");

    match &ie {
        Ok(_) => assert!(true),
        Err(_) => assert!(false, "Valid to only have if"),
    };
}

#[test]
fn t_if_else() {
    match Construct::if_else("if condition {} else {}") {
        Ok((input, _)) => assert_eq!(input, ""),
        Err(_) => assert!(false, "Valid to have empty blocks"),
    };
}

#[test]
fn t_audit_simple() {
    match Construct::audit("audit {}") {
        Ok(_) => assert!(true),
        Err(_) => assert!(false, "Valid audit syntax"),
    }
}

#[test]
fn t_loop_valid() {
    match Construct::loop_block("loop {}") {
        Ok((i, _)) => assert_eq!(i, ""),
        Err(_) => assert!(false, "Valid empty loop"),
    }
}

#[test]
fn t_loop_invalid() {
    match Construct::loop_block("loo {}") {
        Ok(_) => assert!(false, "`loo` is not the keyword"),
        Err(_) => assert!(true),
    };

    match Construct::loop_block("loop") {
        Ok(_) => assert!(false, "A block is required"),
        Err(_) => assert!(true),
    };
}

#[test]
fn t_while_valid() {
    match Construct::while_block("while x_99 {}") {
        Ok((i, _)) => assert_eq!(i, ""),
        Err(_) => assert!(false, "Valid empty while"),
    }
}

#[test]
fn t_while_invalid() {
    match Construct::while_block("while {}") {
        Ok(_) => assert!(false, "Need a condition"),
        Err(_) => assert!(true),
    };

    match Construct::while_block("while") {
        Ok(_) => assert!(false, "A block is required"),
        Err(_) => assert!(true),
    };
}

#[test]
fn t_for_valid() {
    match Construct::for_block("for x_99 in x_99 {}") {
        Ok((i, _)) => assert_eq!(i, ""),
        Err(_) => assert!(false, "Valid empty for"),
    }
}

#[test]
fn t_for_invalid() {
    match Construct::for_block("for {}") {
        Ok(_) => assert!(false, "Need a variable and range"),
        Err(_) => assert!(true),
    };

    match Construct::for_block("for x99 in {}") {
        Ok(_) => assert!(false, "A range is required"),
        Err(_) => assert!(true),
    };

    match Construct::for_block("for x99 in { { { inner_block() } } }") {
        Ok(_) => assert!(false, "A range is required"),
        Err(_) => assert!(true),
    };
}

#[test]
fn t_jinko_inst_valid() {
    assert_eq!(Construct::jinko_inst("@dump()"), Ok(("", JkInst::Dump)));
    assert_eq!(
        Construct::jinko_inst("@quit(something, something_else)"),
        Ok(("", JkInst::Quit))
    );
}

#[test]
fn t_binary_op_valid() {
    match Construct::binary_op("a *   12 ") {
        Ok(_) => assert!(true),
        Err(_) => assert!(false, "Valid to have multi spaces"),
    };
    match Construct::binary_op("some() + 12.1") {
        Ok(_) => assert!(true),
        Err(_) => assert!(false, "Valid to have multiple instruction types"),
    };
}

#[test]
fn t_binary_op_invalid() {
    match Construct::binary_op("a ? 12") {
        Ok(_) => assert!(false, "? is not a binop"),
        Err(_) => assert!(true),
    };
}

#[test]
fn t_type_declaration_simple() {
    match Construct::type_declaration("type Int(v: int);") {
        Ok(_) => assert!(true),
        Err(_) => assert!(false, "Just one int is valid"),
    };
    match Construct::type_declaration("type Ints(a: int, b: int);") {
        Ok(_) => assert!(true),
        Err(_) => assert!(false, "Two integers is valid"),
    };
    match Construct::type_declaration("type Compound(i: int, s: str);") {
        Ok(_) => assert!(true),
        Err(_) => assert!(false, "Different types are valid"),
    };
    match Construct::type_declaration(
        "type Custom(v: int, a: SomeType, b: Another, c: lower_case);",
    ) {
        Ok(_) => assert!(true),
        Err(_) => assert!(false, "Custom types in custom types are valid"),
    };
}

#[test]
fn t_type_declaration_empty() {
    match Construct::type_declaration("type Empty();") {
        Ok(_) => assert!(false, "Can't have empty types"),
        Err(_) => assert!(true),
    }
}

#[test]
fn t_type_declaration_invalid() {
    match Construct::type_declaration("type ExtraComma(a: int, b: int,);") {
        Ok(_) => assert!(false, "Extra comma in type definition"),
        Err(_) => assert!(true),
    }
}

#[test]
fn t_type_instantiation_valid() {
    match Construct::type_instantiation("Custom { 1 }") {
        Ok(_) => assert!(true),
        Err(_) => assert!(false, "Type instantiation with one value is valid"),
    }
}

#[test]
fn t_type_instantiation_invalid() {
    match Construct::type_instantiation("Custom { ") {
        Ok(_) => assert!(false),
        Err(_) => assert!(true, "Type instantiation need a closing brace"),
    }
}

#[test]
fn t_type_instantiation_no_name() {
    match Construct::type_instantiation("{ 1 }") {
        Ok(_) => assert!(false),
        Err(_) => assert!(true, "Type instantiation need a type name"),
    }
}

#[test]
fn t_func_dec_binop() {
    match Construct::function_declaration("func a(a: int, b:int) -> int { a + b }") {
        Ok(_) => assert!(true),
        Err(_) => assert!(false, "Valid to directly return a binop"),
    }
}

#[test]
fn t_func_dec_return_arg() {
    match Construct::function_declaration("func a(a: int, b:int) -> int { a }") {
        Ok(_) => assert!(true),
        Err(_) => assert!(false, "Valid to directly return an argument"),
    }
}

#[test]
fn t_func_dec_return_arg_plus_stmt() {
    match Construct::function_declaration("func a(a: int, b:int) -> int { something(); a }") {
        Ok(_) => assert!(true),
        Err(_) => assert!(
            false,
            "Valid to directly return an argument after a statement"
        ),
    }
}

#[test]
fn t_func_dec_return_binop_plus_stmt() {
    match Construct::function_declaration("func a(a: int, b:int) -> int { something(); a + b }")
    {
        Ok(_) => assert!(true),
        Err(_) => assert!(false, "Valid to directly return a binop after a statement"),
    }
}

#[test]
fn t_func_dec_return_binop_as_var() {
    match Construct::function_declaration("func a(a: int, b:int) -> int { res = a + b; res }") {
        Ok(_) => assert!(true),
        Err(_) => assert!(false, "Valid to directly return a binop as a variable"),
    }
}

#[test]
fn t_func_call_with_true_arg_is_func_call() {
    let res = Construct::instruction("h(true)").unwrap().1;
    match res {
        Instruction::FunctionCall(call) => assert_eq!(call.name(), "h"),
        other => panic!("not a function call: {:?}", other),
    }

    // There might be a bug that a function call with just a boolean argument gets
    // parsed as a variable. This test aims at correcting that regression. If it
    // fails, then it means the function call did not get parsed as a function call
}

#[test]
fn t_incl_valid() {
    match Construct::incl("incl simple") {
        Ok(_) => assert!(true),
        Err(_) => assert!(false, "`incl simple` is perfectly valid"),
    }
}

#[test]
fn t_incl_valid_plus_rename() {
    match Construct::incl("incl a as b") {
        Ok(_) => assert!(true),
        Err(_) => assert!(false, "incl + renaming has to be handled"),
    }
}

#[test]
fn t_incl_invalid() {
    match Construct::incl("incl") {
        Ok(_) => assert!(false, "Can't include nothing"),
        Err(_) => assert!(true),
    }
}

#[test]
fn t_incl_plus_rename_invalid() {
    match Construct::incl("incl a as") {
        Ok(_) => assert!(false, "Can't include a and rename as nothing"),
        Err(_) => assert!(true),
    }
}

#[test]
fn t_method_call_simple() {
    assert!(
        Construct::method_call("a.b()").is_ok(),
        "Valid to have simple identifiers"
    );
    assert!(
        Construct::method_call("135.method()").is_ok(),
        "Valid to have constant as caller"
    );
    assert!(
        Construct::method_call("{ hey }.method()").is_ok(),
        "Valid to have block as caller"
    );
    assert!(
        Construct::method_call("func_call().method()").is_ok(),
        "Valid to have call as caller"
    );
}

#[test]
fn t_method_call_invalid() {
    assert!(
        Construct::method_call("a.b").is_err(),
        "Missing parentheses"
    );
    assert!(
        Construct::method_call("a.()").is_err(),
        "Missing method name"
    );
    assert!(
        Construct::method_call(".method()").is_err(),
        "Missing caller"
    );
}

#[test]
fn t_return_valid() {
    assert!(
        Construct::return_expression("return").is_ok(),
        "Empty return is valid"
    );
    assert!(
        Construct::return_expression("return 1").is_ok(),
        "Returning a constant is allowed"
    );
}

#[test]
fn t_return_invalid() {
    assert!(
        Construct::return_expression("return 1 2").is_err(),
        "Returning multiple values is not allowed"
    );

    assert!(
        Construct::return_expression("return return").is_err(),
        "Returning a return is not allowed"
    );
}
