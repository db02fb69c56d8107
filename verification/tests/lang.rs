use graliffer::{
    Address, Cell, GralifferError, Grid, Literal, Opcode, Operand, Pointer, Position, Word,
};

fn pos(x: u32, y: u32) -> Position {
    Position::from_numeric(x, y).unwrap()
}

fn cell(text: &str) -> Cell {
    Cell::new(text).unwrap()
}

#[test]
fn literal_readings() {
    let lit = Literal::from_cell(cell("42"));
    assert_eq!(lit.as_numeric().unwrap(), 42);
    assert_eq!(lit.as_numeric_with_default(), 42);
    assert_eq!(lit.as_cell().content(), "42");

    let lit = Literal::from_cell(cell("+7"));
    assert_eq!(lit.as_numeric().unwrap(), 7);

    let lit = Literal::from_cell(cell("ab"));
    assert_eq!(lit.as_numeric().unwrap_err(), GralifferError::NotNumeric);
    assert_eq!(lit.as_numeric_with_default(), 0);

    let lit = Literal::from_cell(cell(""));
    assert_eq!(lit.as_numeric_with_default(), 0);
}

#[test]
fn literal_booleans() {
    assert_eq!(Literal::from_cell(cell("0")).as_bool().unwrap(), false);
    assert_eq!(Literal::from_cell(cell("1")).as_bool().unwrap(), true);
    assert_eq!(
        Literal::from_cell(cell("2")).as_bool().unwrap_err(),
        GralifferError::NotBool
    );
    assert!(!Literal::from_cell(cell("0")).as_bool_with_default());
    assert!(Literal::from_cell(cell("2")).as_bool_with_default());
    assert!(Literal::from_cell(cell("")).as_bool_with_default());
    assert_eq!(Literal::from_bool(true).as_cell().content(), "1");
    assert_eq!(Literal::from_bool(false).as_cell().content(), "0");
}

#[test]
fn literal_from_number_truncates_to_cell_width() {
    assert_eq!(Literal::from_number(0).as_cell().content(), "0");
    assert_eq!(Literal::from_number(427).as_cell().content(), "427");
    assert_eq!(Literal::from_number(1998).as_cell().content(), "199");
}

#[test]
fn address_parsing() {
    let address = Address::from_cell(&cell("@BC")).unwrap();
    assert_eq!(address.position, pos(1, 2));
    assert_eq!(address.as_cell().content(), "@BC");
    assert_eq!(address.as_literal().as_cell().content(), "@BC");
    assert_eq!(
        Address::from_cell(&cell("BC")).unwrap_err(),
        GralifferError::InvalidOperandForm
    );
    assert_eq!(
        Address::from_cell(&cell("@B")).unwrap_err(),
        GralifferError::InvalidOperandForm
    );
    assert_eq!(
        Address::from_cell(&cell("@B-")).unwrap_err(),
        GralifferError::InvalidAxisChar
    );
    let address = Address::from_position(&pos(16, 62));
    assert_eq!(address.as_cell().content(), "@Q+");
}

#[test]
fn pointer_parsing() {
    let pointer = Pointer::from_cell(&cell("&AB")).unwrap();
    assert_eq!(pointer.as_cell().content(), "&AB");
    assert!(Pointer::from_cell(&cell("@AB")).is_err());
    let pointer = Pointer::from_position(&pos(0, 1));
    assert_eq!(pointer.as_literal().as_cell().content(), "&AB");
}

#[test]
fn operand_classification() {
    assert!(matches!(Operand::from_cell(cell("@AB")), Operand::Address(_)));
    assert!(matches!(Operand::from_cell(cell("&AB")), Operand::Pointer(_)));
    assert!(matches!(Operand::from_cell(cell("abc")), Operand::Literal(_)));
    // A malformed address body falls back to a literal.
    assert!(matches!(Operand::from_cell(cell("@A")), Operand::Literal(_)));
    assert!(matches!(Operand::from_cell(cell("&A-")), Operand::Literal(_)));
    assert_eq!(Operand::from_cell(cell("@AB")).as_cell().content(), "@AB");
    let operand = Operand::from_literal(Literal::from_cell(cell("hi")));
    assert_eq!(operand.as_literal().as_cell().content(), "hi");
}

#[test]
fn address_fetches_without_indirection() {
    let mut grid = Grid::new();
    grid.set(pos(1, 1), cell("@CC"));
    let address = Address::from_position(&pos(1, 1));
    // The fetched text is used as a literal, not interpreted further.
    assert_eq!(address.fetch_literal(&grid).as_cell().content(), "@CC");
    assert!(matches!(address.fetch_operand(&grid), Operand::Address(_)));
}

#[test]
fn operand_resolution() {
    let mut grid = Grid::new();
    grid.set(pos(2, 2), cell("7"));
    let operand = Operand::from_cell(cell("@CC"));
    assert_eq!(operand.resolve_to_literal(&grid).as_cell().content(), "7");
    assert_eq!(
        operand.resolve_to_address(&grid).unwrap().position,
        pos(2, 2)
    );
    let literal_operand = Operand::from_cell(cell("9"));
    assert_eq!(
        literal_operand.resolve_to_address(&grid).unwrap_err(),
        GralifferError::NoAddress
    );
    assert_eq!(
        literal_operand.resolve_to_literal(&grid).as_cell().content(),
        "9"
    );
}

#[test]
fn pointer_chain_within_budget_resolves_fully() {
    // AA -> "&AB"; AB holds "5": one indirection.
    let mut grid = Grid::new();
    grid.set(pos(0, 0), cell("&AB"));
    let pointer = Pointer::from_cell(&grid.get(pos(0, 0))).unwrap();
    grid.set(pos(0, 1), cell("5"));
    assert_eq!(pointer.resolve_to_literal(&grid).as_cell().content(), "5");
}

#[test]
fn pointer_chain_beyond_budget_stops_at_third_fetch() {
    // A chain of five pointer cells: AA -> AB -> AC -> AD -> AE -> "7".
    let mut grid = Grid::new();
    grid.set(pos(0, 0), cell("&AB"));
    grid.set(pos(0, 1), cell("&AC"));
    grid.set(pos(0, 2), cell("&AD"));
    grid.set(pos(0, 3), cell("&AE"));
    grid.set(pos(0, 4), cell("7"));
    let pointer = Pointer::from_position(&pos(0, 0));
    // The third fetched cell, "&AD", is still a pointer when the budget
    // runs out: it is used as it stands.
    let operand = pointer.resolve_to_operand(&grid);
    assert!(matches!(operand, Operand::Pointer(_)));
    assert_eq!(operand.as_cell().content(), "&AD");
    assert_eq!(
        pointer.resolve_to_literal(&grid).as_cell().content(),
        "&AD"
    );
    assert_eq!(
        pointer.resolve_to_address(&grid).unwrap_err(),
        GralifferError::NoAddress
    );
}

#[test]
fn pointer_cycle_terminates() {
    // AA points to itself: resolution stops after the budget.
    let mut grid = Grid::new();
    grid.set(pos(0, 0), cell("&AA"));
    let pointer = Pointer::from_position(&pos(0, 0));
    assert_eq!(
        pointer.resolve_to_literal(&grid).as_cell().content(),
        "&AA"
    );
}

#[test]
fn opcode_parsing() {
    assert!(matches!(Opcode::from_cell(cell("add")).unwrap(), Opcode::Add));
    assert!(matches!(Opcode::from_cell(cell("nop")).unwrap(), Opcode::Nop));
    assert!(matches!(Opcode::from_cell(cell("prt")).unwrap(), Opcode::Prt));
    assert!(matches!(
        Opcode::from_cell(cell("set")).unwrap(),
        Opcode::SetCell
    ));
    assert_eq!(
        Opcode::from_cell(cell("xyz")).unwrap_err(),
        GralifferError::NotAnOpcode
    );
    // Opcode names are matched exactly: case matters.
    assert!(Opcode::from_cell(cell("Add")).is_err());
    assert!(Opcode::from_cell(cell("ad")).is_err());
    assert!(Opcode::is_cell_valid(&cell("jmp")));
    assert!(!Opcode::is_cell_valid(&cell("jm")));
}

#[test]
fn word_classification() {
    assert!(matches!(Word::from_cell(cell("mul")), Word::Opcode(_)));
    assert!(matches!(Word::from_cell(cell("@AB")), Word::Operand(_)));
    assert!(matches!(Word::from_cell(cell("12")), Word::Operand(_)));
}
