use abstraps::builder::{BuilderError, OperationBuilder};
use abstraps::ir::{Attribute, BasicBlock, Intrinsic, Region};

#[derive(Debug)]
struct Const;

impl Intrinsic for Const {
    fn get_name(&self) -> String {
        "const".to_string()
    }

    fn get_traits(&self) -> Vec<String> {
        vec!["pure".to_string()]
    }
}

#[derive(Clone, Debug, PartialEq, Eq)]
struct Payload(u8);

impl Attribute for Payload {
    fn to_bytes(&self) -> Vec<u8> {
        vec![self.0]
    }
}

fn fresh() -> OperationBuilder<Const, Payload> {
    OperationBuilder::default(Const)
}

#[test]
fn entry_block_argument_links_to_operands() {
    let mut b = fresh();
    b.push_region(Region::new());
    b.push_block(BasicBlock::new()).unwrap();
    let v = b.push_arg().unwrap();
    let operands = b.get_operands(v);
    assert_eq!(operands.len(), 1);
    assert_eq!(operands[0], v);
    let blk = b.get_block().unwrap();
    assert_eq!(blk.get_args().len(), 1);
    assert_eq!(blk.get_args()[0], v);
}

#[test]
fn push_block_without_region_fails() {
    let mut b = fresh();
    let r = b.push_block(BasicBlock::new());
    assert_eq!(r.unwrap_err(), BuilderError::NoActiveRegion);
    assert!(b.get_regions().is_empty());
    assert_eq!(b.get_cursor(), (0, 0));
}

#[test]
fn block_scoped_calls_fail_without_block() {
    let mut b = fresh();
    assert_eq!(b.get_block().unwrap_err(), BuilderError::NoActiveRegion);
    assert_eq!(b.push_arg().unwrap_err(), BuilderError::NoActiveRegion);
    b.push_region(Region::new());
    assert_eq!(b.get_block().unwrap_err(), BuilderError::NoActiveBlock);
    assert_eq!(b.push_arg().unwrap_err(), BuilderError::NoActiveBlock);
    // The failed calls left the builder state untouched.
    assert_eq!(b.get_cursor(), (1, 0));
    assert_eq!(b.get_operands(abstraps::ir::Var::new(0)).len(), 0);
    assert_eq!(b.get_regions().len(), 1);
    assert_eq!(b.get_regions()[0].get_blocks().len(), 0);
}

#[test]
fn two_regions_two_operands_four_attributes() {
    let mut b = fresh();
    b.push_operand(abstraps::ir::Var::new(7));
    b.push_operand(abstraps::ir::Var::new(8));
    b.push_region(Region::new());
    b.push_block(BasicBlock::new()).unwrap();
    b.push_block(BasicBlock::new()).unwrap();
    b.push_block(BasicBlock::new()).unwrap();
    b.push_region(Region::new());
    b.push_block(BasicBlock::new()).unwrap();
    b.insert_attr("a", Payload(1));
    b.insert_attr("b", Payload(2));
    b.insert_attr("c", Payload(3));
    b.insert_attr("d", Payload(4));
    let op = b.finish().unwrap();
    assert_eq!(op.get_regions().len(), 2);
    assert_eq!(op.get_regions()[0].get_blocks().len(), 3);
    assert_eq!(op.get_regions()[1].get_blocks().len(), 1);
    assert_eq!(op.get_operands().len(), 2);
    assert_eq!(op.get_attrs().len(), 4);
}

#[test]
fn pushed_operation_lands_only_in_active_block() {
    let child = fresh().finish().unwrap();
    let mut parent = fresh();
    parent.push_region(Region::new());
    parent.push_block(BasicBlock::new()).unwrap();
    parent.push_block(BasicBlock::new()).unwrap();
    let v = parent.push_op(child).unwrap();
    assert_eq!(parent.get_latest(), vec![v]);
    let region = parent.get_region().unwrap();
    assert_eq!(region.get_blocks()[0].get_ops().len(), 0);
    assert_eq!(region.get_blocks()[1].get_ops().len(), 1);
}

#[test]
fn push_op_without_block_fails() {
    let child = fresh().finish().unwrap();
    let mut parent = fresh();
    assert_eq!(parent.push_op(child).unwrap_err(), BuilderError::NoActiveRegion);
    let child2 = fresh().finish().unwrap();
    parent.push_region(Region::new());
    assert_eq!(parent.push_op(child2).unwrap_err(), BuilderError::NoActiveBlock);
}

#[test]
fn latest_replaced_by_each_push() {
    let mut parent = fresh();
    parent.push_region(Region::new());
    parent.push_block(BasicBlock::new()).unwrap();
    assert_eq!(parent.get_latest(), vec![]);
    let v1 = parent.push_op(fresh().finish().unwrap()).unwrap();
    assert_eq!(parent.get_latest(), vec![v1]);
    let v2 = parent.push_op(fresh().finish().unwrap()).unwrap();
    assert_eq!(parent.get_latest(), vec![v2]);
    assert_ne!(v1, v2);
}

#[test]
fn operand_count_is_pushes_plus_entry_args() {
    let mut b = fresh();
    b.push_operand(abstraps::ir::Var::new(40));
    b.push_operand(abstraps::ir::Var::new(41));
    b.push_region(Region::new());
    b.push_block(BasicBlock::new()).unwrap();
    let entry = b.push_arg().unwrap();
    b.push_block(BasicBlock::new()).unwrap();
    let other = b.push_arg().unwrap();
    // Two explicit pushes plus one entry-block argument; the argument of the
    // second block is not linked to the operand list.
    let operands = b.get_operands(entry);
    assert_eq!(operands.len(), 3);
    assert_eq!(operands[2], entry);
    assert_ne!(entry, other);
}

#[test]
fn cursor_block_half_carries_over_into_new_region() {
    let mut b = fresh();
    b.push_region(Region::new());
    b.push_block(BasicBlock::new()).unwrap();
    b.push_block(BasicBlock::new()).unwrap();
    assert_eq!(b.get_cursor(), (1, 2));
    b.push_region(Region::new());
    // The block half is inherited, so the active-block lookup misses in the
    // new, still empty region.
    assert_eq!(b.get_cursor(), (2, 2));
    assert_eq!(b.get_block().unwrap_err(), BuilderError::NoActiveBlock);
    b.push_block(BasicBlock::new()).unwrap();
    assert_eq!(b.get_cursor(), (2, 3));
    // The inherited offset still misaligns the lookup: index 2 in a
    // one-block region.
    assert_eq!(b.get_block().unwrap_err(), BuilderError::NoActiveBlock);
    let region = b.get_region().unwrap();
    assert_eq!(region.get_blocks().len(), 1);
}

#[test]
fn set_cursor_repositions_and_misuse_is_reported() {
    let mut b = fresh();
    b.push_region(Region::new());
    b.push_block(BasicBlock::new()).unwrap();
    b.set_cursor(5, 7);
    assert_eq!(b.get_cursor(), (5, 7));
    assert_eq!(b.get_region().unwrap_err(), BuilderError::NoActiveRegion);
    assert_eq!(b.get_block().unwrap_err(), BuilderError::NoActiveRegion);
    b.set_cursor(1, 1);
    assert!(b.get_block().is_ok());
}

#[test]
fn set_operands_replaces_wholesale() {
    let mut b = fresh();
    b.push_operand(abstraps::ir::Var::new(1));
    b.set_operands(vec![abstraps::ir::Var::new(2), abstraps::ir::Var::new(3)]);
    let operands = b.get_operands(abstraps::ir::Var::new(0));
    assert_eq!(operands.len(), 2);
    assert_eq!(operands[0], abstraps::ir::Var::new(2));
    assert_eq!(operands[1], abstraps::ir::Var::new(3));
}

#[test]
fn attributes_overwrite_under_same_key() {
    let mut b = fresh();
    b.insert_attr("value", Payload(1));
    b.insert_attr("kind", Payload(9));
    b.insert_attr("value", Payload(2));
    assert_eq!(b.get_attrs().len(), 2);
    assert_eq!(b.get_attr("value"), Some(&Payload(2)));
    assert_eq!(b.get_attr("kind"), Some(&Payload(9)));
}

#[test]
fn absent_attribute_is_not_an_error() {
    let mut b = fresh();
    assert_eq!(b.get_attr("missing"), None);
    b.insert_attr("present", Payload(5));
    assert_eq!(b.get_attr("missing"), None);
    let op = b.finish().unwrap();
    assert_eq!(op.get_attr("missing"), None);
    assert_eq!(op.get_attr("present"), Some(&Payload(5)));
}

#[test]
fn finish_freezes_accumulated_state() {
    let mut b = fresh();
    b.insert_attr("k", Payload(3));
    b.push_region(Region::new());
    b.push_block(BasicBlock::new()).unwrap();
    let op = b.finish().unwrap();
    assert_eq!(op.get_intrinsic().get_name(), "const");
    assert_eq!(op.get_operands().len(), 0);
    assert_eq!(op.get_attrs().len(), 1);
    assert_eq!(op.get_regions().len(), 1);
    assert_eq!(op.get_successors().len(), 0);
}

#[test]
fn finish_on_fresh_builder_succeeds() {
    let op = fresh().finish().unwrap();
    assert_eq!(op.get_regions().len(), 0);
    assert_eq!(op.get_operands().len(), 0);
    assert_eq!(op.get_attrs().len(), 0);
}

#[test]
fn reserved_error_kinds_are_distinct() {
    // These two kinds are reserved for collaborating components and are
    // never raised by the builder itself.
    assert_ne!(BuilderError::BuilderCreationFailure, BuilderError::Caseless);
    assert_ne!(BuilderError::BuilderCreationFailure, BuilderError::NoActiveRegion);
    assert_ne!(BuilderError::Caseless, BuilderError::NoActiveBlock);
}
