use lrvm::assembler::program_parser::program;
use lrvm::assembler::symbols::{Symbol, SymbolTable, SymbolType};
use lrvm::assembler::{
    prepend_header, Assembler, AssemblerError, AssemblerSection, AssemblerWarning,
    PIE_HEADER_PREFIX,
};
use lrvm::vm::VM;

#[test]
fn test_symbol_table() {
    let mut sym = SymbolTable::new();
    let new_symbol = Symbol::new_with_offset("test".to_string(), SymbolType::Label, 12);
    sym.add_symbol(new_symbol);
    assert_eq!(sym.symbols.len(), 1);
    let v = sym.symbol_value("test");
    assert_eq!(true, v.is_some());
    let v = v.unwrap();
    assert_eq!(v, 12);
    let v = sym.symbol_value("does_not_exist");
    assert_eq!(v.is_some(), false);
}

#[test]
fn test_assemble_program() {
    let mut assembler = Assembler::new();
    let test_string =
        ".data\n.code\nload $0 #100\nload $1 #1\nload $2 #0\ntest: inc $0\nneq $0 $2\njmpe @test\nhlt";
    let program = assembler.assemble(test_string).unwrap();
    let mut vm = VM::new();
    assert_eq!(program.len(), 92, "\nProgram: {:?}\n", program);
    vm.add_bytes(program);
    assert_eq!(vm.program.len(), 92);
}

#[test]
fn test_ro_data() {
    let mut assembler = Assembler::new();
    let test_string = ".data\ntest: .asciiz 'This is a test'\n.code\n";
    let program = assembler.assemble(test_string);
    assert_eq!(program.is_ok(), true);
}

#[test]
fn test_bad_ro_data() {
    let mut assembler = Assembler::new();
    let test_string = ".code\ntest: .asciiz 'This is a test'\n.wrong\n";
    let program = assembler.assemble(test_string);
    assert_eq!(program.is_ok(), false);
}

#[test]
fn test_first_phase_no_segment() {
    let mut assembler = Assembler::new();
    let test_string = "hello: .asciiz 'Fail'";
    let result = program(test_string);
    assert_eq!(result.is_ok(), true);
    let (_, p) = result.unwrap();
    assembler.process_first_phase(&p);
    assert_eq!(assembler.errors.len(), 1);
}

#[test]
fn test_first_phase_inside_segment() {
    let mut assembler = Assembler::new();
    let test_string = ".data\ntest: .asciiz 'Hello'";
    let result = program(test_string);
    assert_eq!(result.is_ok(), true);
    let (_, p) = result.unwrap();
    assembler.process_first_phase(&p);
    assert_eq!(assembler.errors.len(), 0);
}

#[test]
fn test_code_start_offset_written() {
    let mut assembler = Assembler::new();
    let test_string = ".data\ntest1: .asciiz 'Hello'\n.code\nload $0 #100\nload $1 #1\nload $2 #0\ntest: inc $0\nneq $0 $2\njmpe @test\nhlt";
    let program = assembler.assemble(test_string);
    assert_eq!(program.is_ok(), true);

    let program = program.unwrap();
    assert_eq!(program[4], 6);
}

#[test]
fn assembled_file_layout() {
    let mut assembler = Assembler::new();
    let text = ".data\nhi: .asciiz 'Hi'\n.code\nload $0 #500\nadd $0 $1 $2\nprts @hi\nhlt";
    let bytes = assembler.assemble(text).unwrap();
    assert_eq!(&bytes[0..4], &PIE_HEADER_PREFIX[..]);
    assert_eq!(&bytes[4..8], &[3, 0, 0, 0][..]);
    assert!(bytes[8..64].iter().all(|b| *b == 0));
    assert_eq!(&bytes[64..67], &[72, 105, 0][..]);
    assert_eq!(
        &bytes[67..],
        &[0, 0, 1, 244, 1, 0, 1, 2, 21, 0, 0, 0, 5, 0, 0, 0][..]
    );
    assert_eq!(bytes.len(), 64 + 3 + 16);
}

#[test]
fn duplicate_label_gives_one_error() {
    let mut assembler = Assembler::new();
    let result = assembler.assemble(".data\n.code\ntwice: hlt\ntwice: hlt\n");
    assert_eq!(result, Err(vec![AssemblerError::SymbolAlreadyDeclared]));
    assert_eq!(assembler.symbols.symbols.len(), 1);
    assert_eq!(assembler.current_instruction, 4);
}

#[test]
fn asciiz_without_label_is_a_warning() {
    let mut assembler = Assembler::new();
    let bytes = assembler.assemble(".data\n.asciiz 'lost'\n.code\nhlt").unwrap();
    assert_eq!(assembler.ro.len(), 0);
    assert_eq!(bytes[4], 0);
    assert_eq!(
        assembler.warnings,
        vec![AssemblerWarning::StringConstantWithoutLabel { instruction: 1 }]
    );
}

#[test]
fn missing_sections_fail() {
    let mut assembler = Assembler::new();
    let result = assembler.assemble("load $0 #1\nhlt");
    assert_eq!(result, Err(vec![AssemblerError::InsufficientSections]));
    let mut assembler = Assembler::new();
    assert_eq!(
        assembler.assemble(".data\nhlt"),
        Err(vec![AssemblerError::InsufficientSections])
    );
}

#[test]
fn parse_error_stops_assembly() {
    let mut assembler = Assembler::new();
    let result = assembler.assemble(".data\n.code\nhlt\n!!");
    assert_eq!(result, Err(vec![AssemblerError::ParseError { position: 16 }]));
}

#[test]
fn unknown_directive_with_operands_is_an_error() {
    let mut assembler = Assembler::new();
    let result = assembler.assemble(".data\n.word #5\n.code\nhlt");
    assert_eq!(
        result,
        Err(vec![AssemblerError::UnknownDirectiveFound {
            directive: "word".to_string()
        }])
    );
}

#[test]
fn label_outside_section_is_an_error() {
    let mut assembler = Assembler::new();
    let result = assembler.assemble("start: hlt\n.data\n.code\n");
    assert_eq!(
        result,
        Err(vec![AssemblerError::NoSegmentDeclarationFound { instruction: 0 }])
    );
}

#[test]
fn unknown_section_is_noted() {
    let mut assembler = Assembler::new();
    let bytes = assembler.assemble(".data\n.text\n.code\nhlt");
    assert!(bytes.is_ok());
    assert_eq!(
        assembler.warnings,
        vec![
            AssemblerWarning::UnknownSection { instruction: 1 },
            AssemblerWarning::UnknownSection { instruction: 1 }
        ]
    );
}

#[test]
fn string_label_gets_its_offset() {
    let mut assembler = Assembler::new();
    assembler.assemble(".data\na: .asciiz 'xy'\nb: .asciiz 'z'\n.code\nhlt")
        .unwrap();
    assert_eq!(assembler.symbols.symbol_value("a"), Some(0));
    assert_eq!(assembler.symbols.symbol_value("b"), Some(3));
    assert_eq!(assembler.ro, vec![120, 121, 0, 122, 0]);
}

#[test]
fn set_symbol_offset_changes_the_first_entry() {
    let mut sym = SymbolTable::new();
    sym.add_symbol(Symbol::new("a".to_string(), SymbolType::Label));
    assert!(sym.has_symbol("a"));
    assert!(!sym.has_symbol("b"));
    assert!(sym.set_symbol_offset("a", 7));
    assert!(!sym.set_symbol_offset("b", 7));
    assert_eq!(sym.symbol_value("a"), Some(7));
}

#[test]
fn section_names() {
    assert_eq!(
        AssemblerSection::from("data"),
        AssemblerSection::Data {
            starting_instruction: None
        }
    );
    assert_eq!(
        AssemblerSection::from("code"),
        AssemblerSection::Code {
            starting_instruction: None
        }
    );
    assert_eq!(AssemblerSection::from("Data"), AssemblerSection::Unknown);
}

#[test]
fn prepend_header_pads_to_sixty_four() {
    let bytes = prepend_header(vec![5, 0, 0, 0]);
    assert_eq!(bytes.len(), 68);
    assert_eq!(&bytes[0..4], &[45, 50, 49, 45][..]);
    assert!(bytes[4..64].iter().all(|b| *b == 0));
    assert_eq!(&bytes[64..], &[5, 0, 0, 0][..]);
}

#[test]
fn label_usage_encodes_the_string_offset() {
    let mut assembler = Assembler::new();
    let bytes = assembler
        .assemble(".data\na: .asciiz 'xy'\nb: .asciiz 'z'\n.code\nprts @b")
        .unwrap();
    assert_eq!(&bytes[64 + 5..], &[21, 0, 3, 0][..]);
}

#[test]
fn code_label_gets_its_byte_offset() {
    let mut assembler = Assembler::new();
    let bytes = assembler
        .assemble(".data\n.code\nhlt\nback: hlt\njmpe @back\njmpe @nowhere")
        .unwrap();
    assert_eq!(assembler.symbols.symbol_value("back"), Some(4));
    assert_eq!(
        &bytes[64..],
        &[5, 0, 0, 0, 5, 0, 0, 0, 15, 0, 4, 0, 15, 0, 0, 0][..]
    );
}

#[test]
fn read_only_offset_moves_on_by_each_string() {
    let mut assembler = Assembler::new();
    assembler
        .assemble(".data\na: .asciiz 'xy'\n.code\nhlt")
        .unwrap();
    assert_eq!(assembler.ro_offset, 3);
    assert!(assembler.bytecode.is_empty());
}
