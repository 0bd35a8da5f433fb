use lrvm::assembler::directive_parsers::{directive_combined, directive_declaration};
use lrvm::assembler::instruction_parsers::{instruction_combined, AssemblerInstruction};
use lrvm::assembler::label_parsers::{label_declaration, label_usage};
use lrvm::assembler::opcode_parsers::opcode;
use lrvm::assembler::operand_parser::{
    float_operand, integer_operand, ir_string, ir_string_double_quota, ir_string_single_quota,
    operand,
};
use lrvm::assembler::program_parser::program;
use lrvm::assembler::register_parser::register;
use lrvm::assembler::symbols::SymbolTable;
use lrvm::assembler::Token;
use lrvm::instruction::Opcode;

#[test]
fn test_directive() {
    let expect = Token::Directive {
        name: String::from("data"),
    };

    let result = directive_declaration(".data\n");
    assert!(result.is_ok(), "directive: {:?}", result);
    let (_, token) = result.unwrap();
    assert_eq!(expect, token);

    let result = directive_declaration("   .data   \n  ");
    assert!(result.is_ok(), "directive: {:?}", result);
    let (_, token) = result.unwrap();
    assert_eq!(expect, token);
}

#[test]
fn test_string_directive() {
    let result = directive_combined("test: .asciiz 'Hello'");
    assert_eq!(result.is_ok(), true);
    let (_, directive) = result.unwrap();

    let correct_instruction = AssemblerInstruction {
        opcode: None,
        label: Some(Token::LabelDeclaration {
            name: "test".to_string(),
        }),
        directive: Some(Token::Directive {
            name: "asciiz".to_string(),
        }),
        operand1: Some(Token::IrString {
            name: "Hello".to_string(),
        }),
        operand2: None,
        operand3: None,
    };

    assert_eq!(directive, correct_instruction);
}

#[test]
fn test_parse_instruction_form_one() {
    let expect = AssemblerInstruction {
        opcode: Some(Token::Op { code: Opcode::LOAD }),
        operand1: Some(Token::Register { reg_num: 0 }),
        operand2: Some(Token::IntegerOperand { value: 100 }),
        operand3: None,
        label: None,
        directive: None,
    };

    let result = instruction_combined("load $0 #100\n");
    assert_eq!(result, Ok((String::from(""), expect.clone())));

    let result = instruction_combined("  load $0 #100     \n    ");
    assert_eq!(result, Ok((String::from(""), expect)));
}

#[test]
fn test_parse_instruction_form_two() {
    let expect = AssemblerInstruction {
        opcode: Some(Token::Op { code: Opcode::HLT }),
        operand1: None,
        operand2: None,
        operand3: None,
        label: None,
        directive: None,
    };

    let result = instruction_combined("hlt\n");
    assert_eq!(result, Ok((String::from(""), expect.clone())));

    let result = instruction_combined("hlt \n    ");
    assert_eq!(result, Ok((String::from(""), expect.clone())));

    let result = instruction_combined("     hlt \n    ");
    assert_eq!(result, Ok((String::from(""), expect)));
}

#[test]
fn test_parse_instruction_form_three() {
    let expect = AssemblerInstruction {
        opcode: Some(Token::Op { code: Opcode::ADD }),
        operand1: Some(Token::Register { reg_num: 0 }),
        operand2: Some(Token::Register { reg_num: 1 }),
        operand3: Some(Token::Register { reg_num: 2 }),
        label: None,
        directive: None,
    };

    let result = instruction_combined("add $0 $1 $2\n");
    assert_eq!(result, Ok((String::from(""), expect.clone())));

    let result = instruction_combined("  add    $0 $1    $2\n");
    assert_eq!(result, Ok((String::from(""), expect)));
}

#[test]
fn test_parse_instruction_form_four() {
    let expect = AssemblerInstruction {
        opcode: Some(Token::Op { code: Opcode::INC }),
        operand1: Some(Token::Register { reg_num: 0 }),
        operand2: None,
        operand3: None,
        label: Some(Token::LabelDeclaration {
            name: String::from("test"),
        }),
        directive: None,
    };

    let result = instruction_combined("test: inc $0\n");
    assert_eq!(result, Ok((String::from(""), expect.clone())));

    let result = instruction_combined("  test: inc $0 \n    ");
    assert_eq!(result, Ok((String::from(""), expect.clone())));
}

#[test]
fn test_parse_label_declaration() {
    let expect = Token::LabelDeclaration {
        name: "test".to_string(),
    };
    let result = label_declaration("test:\n");
    assert_eq!(result.is_ok(), true);
    let (_, token) = result.unwrap();
    assert_eq!(token, expect);
    let result = label_declaration("test\n");
    assert_eq!(result.is_ok(), false);
    let result = label_declaration("test :\n");
    assert_eq!(result.is_ok(), false);

    let expect = Token::LabelDeclaration {
        name: "112tes2t3".to_string(),
    };
    let result = label_declaration("   112tes2t3:   \n");
    assert_eq!(result.is_ok(), true);
    let (_, token) = result.unwrap();
    assert_eq!(token, expect);

    let result = label_declaration("   112tes2t3 :   \n");
    assert_eq!(result.is_ok(), false);
}

#[test]
fn test_parse_label_usage() {
    let expect = Token::LabelUsage {
        name: "test".to_string(),
    };
    let result = label_usage("@test\n");
    assert_eq!(result.is_ok(), true);
    let (_, token) = result.unwrap();
    assert_eq!(token, expect);

    let result = label_usage("test");
    assert_eq!(result.is_ok(), false);

    let result = label_usage("@ test");
    assert_eq!(result.is_ok(), false);

    let result = label_usage(" @test  \n");
    assert_eq!(result.is_ok(), true);
    let (_, token) = result.unwrap();
    assert_eq!(token, expect);

    let expect = Token::LabelUsage {
        name: "1te12st".to_string(),
    };

    let result = label_usage("@1te12st\n");
    assert_eq!(result.is_ok(), true);
    let (_, token) = result.unwrap();
    assert_eq!(token, expect);

    let result = label_usage(" @1te12st  \n");
    assert_eq!(result.is_ok(), true);
    let (_, token) = result.unwrap();
    assert_eq!(token, expect);

    let result = label_usage(" @  1te12st \n");
    assert_eq!(result.is_ok(), false);
}

#[test]
fn test_opcode() {
    let result = opcode("load");
    assert_eq!(result.is_ok(), true);
    let (rest, token) = result.unwrap();
    assert_eq!(token, Token::Op { code: Opcode::LOAD });
    assert_eq!(rest, "");

    let result = opcode("LoAd");
    assert_eq!(result.is_ok(), true);
    let (rest, token) = result.unwrap();
    assert_eq!(token, Token::Op { code: Opcode::LOAD });
    assert_eq!(rest, "");

    let result = opcode("aold");
    assert_eq!(result.is_ok(), true);
    let (_, token) = result.unwrap();
    assert_eq!(token, Token::Op { code: Opcode::IGL });
}

#[test]
fn test_opcode_customize() {
    let result = opcode("load$1#2");
    assert_eq!(result.is_ok(), true);
    let (_rest, _token) = result.unwrap();
}

#[test]
fn operand_parser_test_parse_register() {
    let result = integer_operand("#10");
    assert_eq!(result.is_ok(), true);
    let (rest, value) = result.unwrap();
    assert_eq!(rest, "");
    assert_eq!(value, Token::IntegerOperand { value: 10 });
    let result = integer_operand("10");
    assert_eq!(result.is_ok(), false);
    let result = integer_operand("#a");
    assert_eq!(result.is_ok(), false);

    let result = integer_operand("# 10");
    assert_eq!(result.is_ok(), false);
}

#[test]
fn test_ir_string_single_quota() {
    let input = "'Hello World'";
    let result = ir_string_single_quota(input);
    assert_eq!(result.is_ok(), true);
    let (rest, token) = result.unwrap();
    assert_eq!(rest, "");
    assert_eq!(
        token,
        Token::IrString {
            name: "Hello World".to_string()
        },
        "Token:{:?}",
        token
    );

    let input = "'With Spaces and !@#$%^&*()_+'";
    let result = ir_string_single_quota(input);
    assert_eq!(result.is_ok(), true);
    let (rest, token) = result.unwrap();
    assert_eq!(rest, "");
    assert_eq!(
        token,
        Token::IrString {
            name: "With Spaces and !@#$%^&*()_+".to_string()
        },
        "Token:{:?}",
        token
    );
}

#[test]
fn test_ir_string_double_quota() {
    let input = "\"SingleWord\"";
    let result = ir_string_double_quota(input);
    assert_eq!(result.is_ok(), true);
    let (rest, token) = result.unwrap();
    assert_eq!(rest, "");
    assert_eq!(
        token,
        Token::IrString {
            name: "SingleWord".to_string()
        },
        "Token:{:?}",
        token
    );

    let input = "\"With Spaces and \"'quoted'\" strings\"";
    let result = ir_string_double_quota(input);
    assert_eq!(result.is_ok(), true);
    let (rest, token) = result.unwrap();
    assert_eq!(rest, "'quoted'\" strings\"");
    assert_eq!(
        token,
        Token::IrString {
            name: "With Spaces and ".to_string()
        },
        "Token:{:?}",
        token
    );
}

#[test]
fn test_ir_string() {
    let input = "  'Hello World' \n";
    let result = ir_string(input);
    assert_eq!(result.is_ok(), true);
    let (rest, token) = result.unwrap();
    assert_eq!(rest, "");
    assert_eq!(
        token,
        Token::IrString {
            name: "Hello World".to_string()
        },
        "Token:{:?}",
        token
    );

    let input = "  \"SingleWord\"  ";
    let result = ir_string(input);
    assert_eq!(result.is_ok(), true);
    let (rest, token) = result.unwrap();
    assert_eq!(rest, "");
    assert_eq!(
        token,
        Token::IrString {
            name: "SingleWord".to_string()
        },
        "Token:{:?}",
        token
    );

    let input = " 'With Spaces and !@#$%^&*()_+' \n";
    let result = ir_string(input);
    assert_eq!(result.is_ok(), true);
    let (rest, token) = result.unwrap();
    assert_eq!(rest, "");
    assert_eq!(
        token,
        Token::IrString {
            name: "With Spaces and !@#$%^&*()_+".to_string()
        },
        "Token:{:?}",
        token
    );

    let input = "\"With Spaces and \"'quoted'\" strings\"\n";
    let result = ir_string(input);
    assert_eq!(result.is_ok(), true);
    let (rest, token) = result.unwrap();
    assert_eq!(rest, "'quoted'\" strings\"\n");
    assert_eq!(
        token,
        Token::IrString {
            name: "With Spaces and ".to_string()
        },
        "Token:{:?}",
        token
    );

    let input = "  \"With Spaces' and !@#$%^&*()_+\" \n";
    let result = ir_string(input);
    assert_eq!(result.is_ok(), true);
    let (rest, token) = result.unwrap();
    assert_eq!(rest, "");
    assert_eq!(
        token,
        Token::IrString {
            name: "With Spaces' and !@#$%^&*()_+".to_string()
        },
        "Token:{:?}",
        token
    );

    let input = "  'With Spaces\" and !@#$%^&*()_+' \n";
    let result = ir_string(input);
    assert_eq!(result.is_ok(), true);
    let (rest, token) = result.unwrap();
    assert_eq!(rest, "");
    assert_eq!(
        token,
        Token::IrString {
            name: "With Spaces\" and !@#$%^&*()_+".to_string()
        },
        "Token:{:?}",
        token
    );
}

#[test]
fn test_parse_float_operand() {
    for i in vec!["#100.3", "#-100.3", "#1.0", "#0.0"] {
        assert_eq!(float_operand(i).is_ok(), true);
    }
}

#[test]
fn test_parse_program() {
    let result = program("load $0 #100\n");
    assert_eq!(result.is_ok(), true);
    let (leftover, p) = result.unwrap();
    assert_eq!(leftover, "");
    assert_eq!(1, p.instructions.len());

    let result = program("load $0 #100   \n   ");
    assert_eq!(result.is_ok(), true);
    let (leftover, p) = result.unwrap();
    assert_eq!(leftover, "");
    assert_eq!(1, p.instructions.len());
}

#[test]
fn test_program_to_bytes() {
    let symbols = SymbolTable::new();

    let result = program("load $0 #100\n");
    assert_eq!(result.is_ok(), true);
    let (_, program_res) = result.unwrap();
    let bytecode = program_res.to_bytes(&symbols);
    assert_eq!(bytecode.len(), 4);

    let result = program("load $0 #1000  \n   ");
    assert_eq!(result.is_ok(), true);
    let (_, program_res) = result.unwrap();
    let bytecode = program_res.to_bytes(&symbols);
    assert_eq!(bytecode.len(), 4);
}

#[test]
fn test_complete_program() {
    let test_program = "  .data\nhello: .asciiz 'Hello everyone!'\n.code\nhlt";
    let result = program(test_program);
    assert_eq!(result.is_ok(), true, "result:{:?}", result);
}

#[test]
fn register_parser_test_parse_register() {
    let result = register("$0");
    assert_eq!(result.is_ok(), true);
    let result = register("0");
    assert_eq!(result.is_ok(), false);
    let result = register("$a");
    assert_eq!(result.is_ok(), false);
    let result = register("$ 100");
    assert_eq!(result.is_ok(), false);
}

#[test]
fn register_above_255_is_refused() {
    assert_eq!(register("$255").unwrap().1, Token::Register { reg_num: 255 });
    assert!(register("$256").is_err());
}

#[test]
fn negative_and_extreme_integers() {
    assert_eq!(
        integer_operand("#-5").unwrap().1,
        Token::IntegerOperand { value: -5 }
    );
    assert_eq!(
        integer_operand("#-2147483648").unwrap().1,
        Token::IntegerOperand { value: i32::MIN }
    );
    assert_eq!(
        integer_operand("#2147483647").unwrap().1,
        Token::IntegerOperand { value: i32::MAX }
    );
    assert!(integer_operand("#2147483648").is_err());
}

#[test]
fn float_operand_keeps_its_text() {
    let (rest, token) = float_operand("  #-100.3 $1").unwrap();
    assert_eq!(
        token,
        Token::Float {
            literal: "-100.3".to_string()
        }
    );
    assert_eq!(rest, "$1");
    assert!(float_operand("#100").is_err());
}

#[test]
fn operand_tries_each_form() {
    assert_eq!(
        operand("#1.5").unwrap().1,
        Token::Float {
            literal: "1.5".to_string()
        }
    );
    assert_eq!(operand("#15").unwrap().1, Token::IntegerOperand { value: 15 });
    assert_eq!(
        operand("@end").unwrap().1,
        Token::LabelUsage {
            name: "end".to_string()
        }
    );
    assert_eq!(operand("$3").unwrap().1, Token::Register { reg_num: 3 });
    assert_eq!(
        operand("'x y'").unwrap().1,
        Token::IrString {
            name: "x y".to_string()
        }
    );
    assert!(operand("hlt").is_err());
}

#[test]
fn program_with_leftover_text_is_an_error() {
    let result = program("load $0 #100\n.3");
    assert_eq!(result.unwrap_err().position, 13);
    let result = program("");
    assert_eq!(result.unwrap_err().position, 0);
}

#[test]
fn unterminated_string_is_refused() {
    assert!(ir_string("'open").is_err());
}

#[test]
fn integer_operand_encodes_big_endian() {
    let symbols = SymbolTable::new();
    let (_, p) = program("load $0 #-5\nload $1 #1000\n").unwrap();
    assert_eq!(p.to_bytes(&symbols), vec![0, 0, 255, 251, 0, 1, 3, 232]);
}

#[test]
fn wide_instructions_are_not_cut() {
    let symbols = SymbolTable::new();
    let (_, p) = program("load #1 #2 #3\nhlt\n").unwrap();
    assert_eq!(p.to_bytes(&symbols), vec![0, 0, 1, 0, 2, 0, 3, 5, 0, 0, 0]);
}
