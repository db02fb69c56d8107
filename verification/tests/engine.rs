use graliffer::{
    Artifact, Cell, Direction, Frame, FrameAction, Grid, History, Opcode, Operand, Position,
    RunDescriptor,
};

fn pos(x: u32, y: u32) -> Position {
    Position::from_numeric(x, y).unwrap()
}

fn cell(text: &str) -> Cell {
    Cell::new(text).unwrap()
}

fn empty_frame() -> Frame {
    Frame::new(RunDescriptor::default())
}

fn stack_texts(frame: &Frame) -> Vec<String> {
    frame.stack.iter().iter().map(|o| o.as_cell().content()).collect()
}

#[test]
fn grid_set_then_get_round_trips() {
    let mut grid = Grid::new();
    grid.set(pos(3, 4), cell("ab"));
    assert_eq!(grid.get(pos(3, 4)).content(), "ab");
    assert_eq!(grid.get(pos(4, 3)).content(), "");
}

#[test]
fn grid_set_empty_cell_clears_the_position() {
    let mut grid = Grid::new();
    grid.set(pos(3, 4), cell("ab"));
    grid.set(pos(3, 4), Cell::default());
    assert!(grid.get(pos(3, 4)).is_empty());
    // Clearing an already absent position is harmless.
    grid.set(pos(9, 9), Cell::default());
    assert!(grid.get(pos(9, 9)).is_empty());
}

#[test]
fn frame_actions_mutate_and_invert() {
    let mut frame = empty_frame();
    let _ = frame.act(FrameAction::GridSet(pos(1, 1), cell("5")));
    assert_eq!(frame.grid.get(pos(1, 1)).content(), "5");

    let _ = frame.act(FrameAction::StackPush(Operand::from_cell(cell("9"))));
    assert_eq!(stack_texts(&frame), vec!["9".to_string()]);
    let _ = frame.act(FrameAction::StackPop);
    assert!(stack_texts(&frame).is_empty());

    let _ = frame.act(FrameAction::HeadMoveTo(pos(5, 5)));
    assert_eq!(frame.head.position, pos(5, 5));
    let _ = frame.act(FrameAction::HeadDirectTo(Direction::Down));
    assert_eq!(frame.head.direction, Direction::Down);
    let _ = frame.act(FrameAction::HeadStep);
    assert_eq!(frame.head.position, pos(5, 6));

    let _ = frame.act(FrameAction::ConsolePrint("hi".to_string()));
    assert_eq!(frame.console.buffer, "hi");
}

#[test]
fn head_step_at_border_is_a_no_op() {
    let mut frame = empty_frame();
    let _ = frame.act(FrameAction::HeadMoveTo(pos(63, 0)));
    let _ = frame.act(FrameAction::HeadStep);
    assert_eq!(frame.head.position, pos(63, 0));
}

#[test]
fn add_on_empty_stack_defaults_to_zero() {
    // Both pops miss, the defaults are 0 and 0: "0" is pushed.
    let mut frame = empty_frame();
    let _ = Opcode::Add.evaluate(&mut frame);
    assert_eq!(stack_texts(&frame), vec!["0".to_string()]);
    assert_eq!(frame.head.position, pos(1, 0));
}

#[test]
fn arithmetic_pops_rhs_first() {
    let mut frame = empty_frame();
    let _ = frame.act(FrameAction::StackPush(Operand::from_cell(cell("9"))));
    let _ = frame.act(FrameAction::StackPush(Operand::from_cell(cell("4"))));
    let _ = Opcode::Sub.evaluate(&mut frame);
    // 9 - 4: the right-hand side is popped first.
    assert_eq!(stack_texts(&frame), vec!["5".to_string()]);
}

#[test]
fn arithmetic_saturates_and_defends_division() {
    let mut frame = empty_frame();
    let _ = frame.act(FrameAction::StackPush(Operand::from_cell(cell("3"))));
    let _ = frame.act(FrameAction::StackPush(Operand::from_cell(cell("7"))));
    let _ = Opcode::Sub.evaluate(&mut frame);
    // 3 - 7 saturates to 0.
    assert_eq!(stack_texts(&frame), vec!["0".to_string()]);

    let mut frame = empty_frame();
    let _ = frame.act(FrameAction::StackPush(Operand::from_cell(cell("8"))));
    let _ = frame.act(FrameAction::StackPush(Operand::from_cell(cell("0"))));
    let _ = Opcode::Div.evaluate(&mut frame);
    // 8 / 0 yields 0.
    assert_eq!(stack_texts(&frame), vec!["0".to_string()]);

    let mut frame = empty_frame();
    let _ = frame.act(FrameAction::StackPush(Operand::from_cell(cell("12"))));
    let _ = frame.act(FrameAction::StackPush(Operand::from_cell(cell("12"))));
    let _ = Opcode::Mul.evaluate(&mut frame);
    // 144 fits in a cell.
    assert_eq!(stack_texts(&frame), vec!["144".to_string()]);
}

#[test]
fn comparisons_push_boolean_literals() {
    let mut frame = empty_frame();
    let _ = frame.act(FrameAction::StackPush(Operand::from_cell(cell("9"))));
    let _ = frame.act(FrameAction::StackPush(Operand::from_cell(cell("4"))));
    let _ = Opcode::Grt.evaluate(&mut frame);
    // 9 > 4.
    assert_eq!(stack_texts(&frame), vec!["1".to_string()]);

    let mut frame = empty_frame();
    let _ = frame.act(FrameAction::StackPush(Operand::from_cell(cell("ab"))));
    let _ = frame.act(FrameAction::StackPush(Operand::from_cell(cell("ab"))));
    let _ = Opcode::Equ.evaluate(&mut frame);
    assert_eq!(stack_texts(&frame), vec!["1".to_string()]);

    let mut frame = empty_frame();
    let _ = frame.act(FrameAction::StackPush(Operand::from_cell(cell("ab"))));
    let _ = frame.act(FrameAction::StackPush(Operand::from_cell(cell("ba"))));
    let _ = Opcode::Neq.evaluate(&mut frame);
    assert_eq!(stack_texts(&frame), vec!["1".to_string()]);
}

#[test]
fn set_writes_through_an_address() {
    let mut frame = empty_frame();
    let _ = frame.act(FrameAction::StackPush(Operand::from_cell(cell("7"))));
    let _ = frame.act(FrameAction::StackPush(Operand::from_cell(cell("@CC"))));
    let _ = Opcode::SetCell.evaluate(&mut frame);
    assert_eq!(frame.grid.get(pos(2, 2)).content(), "7");
    assert!(stack_texts(&frame).is_empty());
}

#[test]
fn prt_appends_the_operand_text() {
    let mut frame = empty_frame();
    let _ = frame.act(FrameAction::StackPush(Operand::from_cell(cell("@AB"))));
    let _ = Opcode::Prt.evaluate(&mut frame);
    // The operand's own text is printed, without resolution.
    assert_eq!(frame.console.buffer, "@AB");
}

#[test]
fn jumps_move_the_head_without_trailing_step() {
    let mut frame = empty_frame();
    let _ = frame.act(FrameAction::StackPush(Operand::from_cell(cell("@FD"))));
    let _ = Opcode::Jmp.evaluate(&mut frame);
    assert_eq!(frame.head.position, pos(5, 3));

    let mut frame = empty_frame();
    let _ = frame.act(FrameAction::StackPush(Operand::from_cell(cell("@FD"))));
    let _ = frame.act(FrameAction::StackPush(Operand::from_cell(cell("0"))));
    let _ = Opcode::Ijp.evaluate(&mut frame);
    // The condition "0" is false: no jump, and no trailing step either.
    assert_eq!(frame.head.position, pos(0, 0));
    assert!(stack_texts(&frame).is_empty());
}

#[test]
fn conditional_turns_need_a_strict_boolean() {
    let mut frame = empty_frame();
    let _ = frame.act(FrameAction::StackPush(Operand::from_cell(cell("1"))));
    let _ = Opcode::Igd.evaluate(&mut frame);
    assert_eq!(frame.head.direction, Direction::Down);

    let mut frame = empty_frame();
    let _ = frame.act(FrameAction::StackPush(Operand::from_cell(cell("2"))));
    let _ = Opcode::Igd.evaluate(&mut frame);
    // "2" is no strict boolean: the turn is skipped.
    assert_eq!(frame.head.direction, Direction::Right);
}

#[test]
fn halt_parks_the_head() {
    let mut frame = empty_frame();
    let _ = frame.act(FrameAction::GridSet(pos(0, 0), cell("hlt")));
    let artifact = frame.step();
    assert!(artifact.is_empty());
    assert_eq!(frame.head.position, pos(0, 0));
}

#[test]
fn step_over_empty_cell_moves_the_head_once() {
    // Head at (5,5) facing right over an empty cell: one step to (6,5),
    // recorded as a head step whose undo restores (5,5).
    let mut frame = empty_frame();
    let _ = frame.act(FrameAction::HeadMoveTo(pos(5, 5)));
    let artifact = frame.step();
    assert_eq!(frame.head.position, pos(6, 5));
    assert!(matches!(
        artifact.last_redo_action(),
        Some(FrameAction::HeadStep)
    ));
    match artifact.last_undo_action() {
        Some(FrameAction::HeadMoveTo(p)) => assert_eq!(p, pos(5, 5)),
        other => panic!("unexpected undo action: {:?}", other),
    }
    let mut history = History::new();
    history.append(artifact);
    let _ = history.undo(&mut frame);
    assert_eq!(frame.head.position, pos(5, 5));
}

#[test]
fn step_pushes_operands_and_evaluates_opcodes() {
    // The program "2 3 add" laid out left to right.
    let mut frame = empty_frame();
    let _ = frame.act(FrameAction::GridSet(pos(0, 0), cell("2")));
    let _ = frame.act(FrameAction::GridSet(pos(1, 0), cell("3")));
    let _ = frame.act(FrameAction::GridSet(pos(2, 0), cell("add")));
    let _ = frame.step();
    let _ = frame.step();
    assert_eq!(
        stack_texts(&frame),
        vec!["2".to_string(), "3".to_string()]
    );
    let _ = frame.step();
    assert_eq!(stack_texts(&frame), vec!["5".to_string()]);
    assert_eq!(frame.head.position, pos(3, 0));
}

#[test]
fn pointer_program_resolves_through_the_grid() {
    // AA holds a pointer to BB, BB holds "5": resolving the operand at
    // AA yields the literal "5".
    let mut frame = empty_frame();
    let _ = frame.act(FrameAction::GridSet(pos(0, 0), cell("&BB")));
    let _ = frame.act(FrameAction::GridSet(pos(1, 1), cell("5")));
    let operand = Operand::from_cell(frame.grid.get(pos(0, 0)));
    assert_eq!(
        operand.resolve_to_literal(&frame.grid).as_cell().content(),
        "5"
    );
}

#[test]
fn history_cursor_append_undo_append() {
    // Cursor 0; append moves it to 1; undo back to 0 and reverts the
    // frame; a second append discards the undone artifact.
    let mut frame = empty_frame();
    let mut history = History::new();

    let first = frame.act(FrameAction::GridSet(pos(0, 0), cell("aa")));
    history.append(first);
    assert_eq!(frame.grid.get(pos(0, 0)).content(), "aa");

    let undone = history.undo(&mut frame);
    assert!(!undone.is_empty());
    assert!(frame.grid.get(pos(0, 0)).is_empty());

    let second = frame.act(FrameAction::GridSet(pos(1, 0), cell("bb")));
    history.append(second);

    // The first artifact is unreachable now: redo is a no-op.
    let redone = history.redo(&mut frame);
    assert!(redone.is_empty());
    assert!(frame.grid.get(pos(0, 0)).is_empty());
    assert_eq!(frame.grid.get(pos(1, 0)).content(), "bb");

    // Undoing the surviving artifact empties the grid again.
    let _ = history.undo(&mut frame);
    assert!(frame.grid.get(pos(1, 0)).is_empty());
    // Nothing is left to undo.
    let nothing = history.undo(&mut frame);
    assert!(nothing.is_empty());
}

#[test]
fn history_round_trip_restores_the_run() {
    // A program that computes and stores: "2 3 add @EA set", then undo
    // everything and redo everything.
    let mut frame = empty_frame();
    let _ = frame.act(FrameAction::GridSet(pos(0, 0), cell("2")));
    let _ = frame.act(FrameAction::GridSet(pos(1, 0), cell("3")));
    let _ = frame.act(FrameAction::GridSet(pos(2, 0), cell("add")));
    let _ = frame.act(FrameAction::GridSet(pos(3, 0), cell("@EA")));
    let _ = frame.act(FrameAction::GridSet(pos(4, 0), cell("set")));

    let mut history = History::new();
    for _ in 0..5 {
        let artifact = frame.step();
        history.append(artifact);
    }
    assert_eq!(frame.grid.get(pos(4, 0)).content(), "5");
    assert_eq!(frame.head.position, pos(5, 0));
    assert!(stack_texts(&frame).is_empty());

    for _ in 0..5 {
        let _ = history.undo(&mut frame);
    }
    assert_eq!(frame.head.position, pos(0, 0));
    assert_eq!(frame.grid.get(pos(4, 0)).content(), "set");
    assert!(stack_texts(&frame).is_empty());

    for _ in 0..5 {
        let _ = history.redo(&mut frame);
    }
    assert_eq!(frame.head.position, pos(5, 0));
    assert_eq!(frame.grid.get(pos(4, 0)).content(), "5");
    assert!(stack_texts(&frame).is_empty());
}

#[test]
fn merge_with_last_coalesces_edits() {
    let mut frame = empty_frame();
    let mut history = History::new();

    let first = frame.act(FrameAction::GridSet(pos(0, 0), cell("a")));
    history.append(first);
    let second = frame.act(FrameAction::GridSet(pos(0, 0), cell("ab")));
    history.merge_with_last(second);
    assert_eq!(frame.grid.get(pos(0, 0)).content(), "ab");

    // One undo reverts both coalesced edits.
    let _ = history.undo(&mut frame);
    assert!(frame.grid.get(pos(0, 0)).is_empty());
    // And nothing else is left.
    assert!(history.undo(&mut frame).is_empty());

    // On an empty history, merging behaves like appending.
    let mut history = History::new();
    let third = frame.act(FrameAction::GridSet(pos(0, 0), cell("c")));
    history.merge_with_last(third);
    let _ = history.undo(&mut frame);
    assert!(frame.grid.get(pos(0, 0)).is_empty());
}

#[test]
fn merge_with_last_extends_the_newest_entry_even_when_undone() {
    // The merge target is the newest logged artifact, whether or not the
    // cursor has moved back over it.
    let mut frame = empty_frame();
    let mut history = History::new();
    let first = frame.act(FrameAction::GridSet(pos(0, 0), cell("a")));
    history.append(first);
    let second = frame.act(FrameAction::GridSet(pos(1, 0), cell("b")));
    history.append(second);
    let _ = history.undo(&mut frame);
    assert!(frame.grid.get(pos(1, 0)).is_empty());

    let third = frame.act(FrameAction::GridSet(pos(2, 0), cell("c")));
    history.merge_with_last(third);
    // The cursor still sits before the merged entry: redoing it replays
    // the second and third edits together.
    let _ = history.redo(&mut frame);
    assert_eq!(frame.grid.get(pos(1, 0)).content(), "b");
    assert_eq!(frame.grid.get(pos(2, 0)).content(), "c");
}

#[test]
fn empty_artifacts_are_not_logged() {
    let mut frame = empty_frame();
    let mut history = History::new();
    history.append(Artifact::empty());
    history.merge_with_last(Artifact::empty());
    assert!(history.undo(&mut frame).is_empty());
    assert!(history.redo(&mut frame).is_empty());
}

#[test]
fn artifact_composition_keeps_order() {
    let mut frame = empty_frame();
    let mut artifact = frame.act(FrameAction::StackPush(Operand::from_cell(cell("1"))));
    artifact.push(frame.act(FrameAction::StackPush(Operand::from_cell(cell("2")))));
    assert!(matches!(
        artifact.last_redo_action(),
        Some(FrameAction::StackPush(_))
    ));
    assert!(matches!(
        artifact.last_undo_action(),
        Some(FrameAction::StackPop)
    ));

    let mut history = History::new();
    history.append(artifact);
    let _ = history.undo(&mut frame);
    assert!(stack_texts(&frame).is_empty());
    let _ = history.redo(&mut frame);
    assert_eq!(
        stack_texts(&frame),
        vec!["1".to_string(), "2".to_string()]
    );
}

#[test]
fn console_survives_undo_as_a_log() {
    let mut frame = empty_frame();
    let mut history = History::new();
    let _ = frame.act(FrameAction::StackPush(Operand::from_cell(cell("hi"))));
    let artifact = Opcode::Prt.evaluate(&mut frame);
    history.append(artifact);
    assert_eq!(frame.console.buffer, "hi");
    let _ = history.undo(&mut frame);
    // Grid, head and stack are restored; the console keeps its log.
    assert_eq!(frame.console.buffer, "hi");
}
