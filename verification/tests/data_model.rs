use abstraps::builder::BuilderError;
use abstraps::ir::{Attribute, BasicBlock, Intrinsic, Region, Var};

#[derive(Debug)]
struct Branch;

impl Intrinsic for Branch {
    fn get_name(&self) -> String {
        "br".to_string()
    }

    fn get_traits(&self) -> Vec<String> {
        vec!["terminator".to_string()]
    }
}

#[derive(Clone, Debug, PartialEq, Eq)]
struct Note(Vec<u8>);

impl Attribute for Note {
    fn to_bytes(&self) -> Vec<u8> {
        self.0.clone()
    }
}

#[test]
fn var_round_trips_its_identity() {
    let v = Var::new(17);
    assert_eq!(v.get_id(), 17);
    assert_eq!(v, Var::new(17));
    assert_ne!(v, Var::new(18));
}

#[test]
fn region_mints_distinct_handles() {
    let mut r: Region<Branch, Note> = Region::new();
    r.push_block(BasicBlock::new());
    let a = r.push_arg(0).unwrap();
    let b = r.push_arg(0).unwrap();
    assert_ne!(a, b);
    assert_eq!(a.get_id(), 0);
    assert_eq!(b.get_id(), 1);
    assert_eq!(r.get_blocks()[0].get_args(), &vec![a, b]);
}

#[test]
fn region_indexing_fails_out_of_range() {
    let mut r: Region<Branch, Note> = Region::new();
    assert_eq!(r.get_block(0).unwrap_err(), BuilderError::NoActiveBlock);
    assert_eq!(r.push_arg(0).unwrap_err(), BuilderError::NoActiveBlock);
    r.push_block(BasicBlock::new());
    assert!(r.get_block(0).is_ok());
    assert_eq!(r.get_block(1).unwrap_err(), BuilderError::NoActiveBlock);
}

#[test]
fn block_appends_args_and_ops_in_order() {
    let mut blk: BasicBlock<Branch, Note> = BasicBlock::new();
    blk.push_arg_var(Var::new(3));
    blk.push_arg_var(Var::new(4));
    assert_eq!(blk.get_args(), &vec![Var::new(3), Var::new(4)]);
    assert_eq!(blk.get_ops().len(), 0);
    let op = abstraps::builder::OperationBuilder::<Branch, Note>::default(Branch)
        .finish()
        .unwrap();
    blk.push_op(op);
    assert_eq!(blk.get_ops().len(), 1);
    assert_eq!(blk.get_ops()[0].get_intrinsic().get_name(), "br");
}

#[test]
fn region_push_op_mints_result_handle() {
    let mut r: Region<Branch, Note> = Region::new();
    r.push_block(BasicBlock::new());
    let op = abstraps::builder::OperationBuilder::<Branch, Note>::default(Branch)
        .finish()
        .unwrap();
    let v = r.push_op(0, op).unwrap();
    assert_eq!(v.get_id(), 0);
    assert_eq!(r.get_blocks()[0].get_ops().len(), 1);
    let op2 = abstraps::builder::OperationBuilder::<Branch, Note>::default(Branch)
        .finish()
        .unwrap();
    assert_eq!(r.push_op(1, op2).unwrap_err(), BuilderError::NoActiveBlock);
}

#[test]
fn intrinsic_surface_is_forwarded() {
    let b: abstraps::builder::OperationBuilder<Branch, Note> =
        abstraps::builder::OperationBuilder::default(Branch);
    assert_eq!(b.get_intrinsic().get_name(), "br");
    assert_eq!(b.get_intrinsic().get_traits(), vec!["terminator".to_string()]);
    let n = Note(vec![1, 2, 3]);
    assert_eq!(n.to_bytes(), vec![1, 2, 3]);
}
