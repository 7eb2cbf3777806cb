use std::any::TypeId;

use data_flow::{data_flow_config, Constraint, DataLabel, DataLabels, TaskConfig};

struct ComponentA;
struct ComponentB;
struct ResourceC;

fn a() -> DataLabel<ComponentA> {
    DataLabel::<ComponentA>::default()
}

fn b() -> DataLabel<ComponentB> {
    DataLabel::<ComponentB>::default()
}

fn c() -> DataLabel<ResourceC> {
    DataLabel::<ResourceC>::default()
}

fn ka() -> TypeId {
    TypeId::of::<ComponentA>()
}

fn kb() -> TypeId {
    TypeId::of::<ComponentB>()
}

fn kc() -> TypeId {
    TypeId::of::<ResourceC>()
}

#[test]
fn labels_of_one_kind_are_equal() {
    let x = a();
    let y = a();
    assert!(x == y);
    assert!(x.clone() == y);
    assert_eq!(x.kind(), y.kind());
}

#[test]
fn labels_of_distinct_kinds_differ() {
    assert_eq!(a().kind(), ka());
    assert_eq!(b().kind(), kb());
    assert_ne!(a().kind(), b().kind());
    assert_ne!(b().kind(), c().kind());
}

#[test]
fn single_label_projections() {
    let read = a().mark_read(TaskConfig::new());
    assert_eq!(read.constraints, vec![Constraint::RunsAfter(ka())]);
    let write = a().mark_write(TaskConfig::new());
    assert_eq!(write.constraints, vec![Constraint::InSet(ka())]);
}

#[test]
fn empty_sets_are_neutral() {
    let omitted = a().mark_write(TaskConfig::new());
    let with_empty = data_flow_config(TaskConfig::new(), (), a());
    assert_eq!(with_empty.constraints, omitted.constraints);

    let omitted = b().mark_read(TaskConfig::new());
    let with_empty = data_flow_config(TaskConfig::new(), b(), ());
    assert_eq!(with_empty.constraints, omitted.constraints);

    let none = data_flow_config(TaskConfig::new(), (), ());
    assert!(none.constraints.is_empty());
}

#[test]
fn empty_set_keeps_existing_constraints() {
    let start = TaskConfig::new().after(kc());
    let r = ().mark_read(start);
    assert_eq!(r.constraints, vec![Constraint::RunsAfter(kc())]);
    let r = ().mark_write(r);
    assert_eq!(r.constraints, vec![Constraint::RunsAfter(kc())]);
}

#[test]
fn composite_folds_in_declaration_order() {
    let folded = (a(), b(), c()).mark_write(TaskConfig::new());
    let stepwise = c().mark_write(b().mark_write(a().mark_write(TaskConfig::new())));
    assert_eq!(folded.constraints, stepwise.constraints);
    assert_eq!(
        folded.constraints,
        vec![Constraint::InSet(ka()), Constraint::InSet(kb()), Constraint::InSet(kc())]
    );

    let reordered = (c(), b(), a()).mark_write(TaskConfig::new());
    assert_ne!(folded.constraints, reordered.constraints);

    let folded = (a(), b(), c()).mark_read(TaskConfig::new());
    let stepwise = c().mark_read(b().mark_read(a().mark_read(TaskConfig::new())));
    assert_eq!(folded.constraints, stepwise.constraints);
}

#[test]
fn nested_tuples_flatten_in_order() {
    let r = ((a(), ()), (b(), (c(),))).mark_read(TaskConfig::new());
    assert_eq!(
        r.constraints,
        vec![Constraint::RunsAfter(ka()), Constraint::RunsAfter(kb()), Constraint::RunsAfter(kc())]
    );
}

#[test]
fn writes_come_before_reads() {
    let r = data_flow_config(TaskConfig::new(), a(), b());
    assert_eq!(r.constraints, vec![Constraint::InSet(kb()), Constraint::RunsAfter(ka())]);
}

#[test]
fn writer_runs_before_reader() {
    let writer = data_flow_config(TaskConfig::new(), (), a());
    let reader = data_flow_config(TaskConfig::new(), a(), ());
    assert!(writer.must_run_before(&reader));
    assert!(!reader.must_run_before(&writer));
}

#[test]
fn unrelated_tasks_are_unordered() {
    let writer = data_flow_config(TaskConfig::new(), (), a());
    let reader = data_flow_config(TaskConfig::new(), b(), c());
    assert!(!writer.must_run_before(&reader));
    assert!(!reader.must_run_before(&writer));
}

#[test]
fn reading_and_writing_one_kind_orders_a_task_after_itself() {
    let task = data_flow_config(TaskConfig::new(), a(), a());
    assert!(task.must_run_before(&task));
}

#[test]
fn composition_scenario_orders_the_chain() {
    let increment = data_flow_config(TaskConfig::new(), (), a());
    let double = data_flow_config(TaskConfig::new(), a(), b());
    let accumulate = data_flow_config(TaskConfig::new(), b(), c());
    let check = data_flow_config(TaskConfig::new(), (a(), b(), c()), ());

    assert!(increment.must_run_before(&double));
    assert!(double.must_run_before(&accumulate));
    assert!(accumulate.must_run_before(&check));
    assert!(increment.must_run_before(&check));
    assert!(double.must_run_before(&check));

    assert!(!double.must_run_before(&increment));
    assert!(!accumulate.must_run_before(&double));
    assert!(!check.must_run_before(&accumulate));
    assert!(!check.must_run_before(&increment));
    assert!(!increment.must_run_before(&accumulate));
}

#[test]
fn one_member_tuple_matches_single_label() {
    let single = a().mark_read(TaskConfig::new());
    let tuple = (a(),).mark_read(TaskConfig::new());
    assert_eq!(single.constraints, tuple.constraints);
    let single = a().mark_write(TaskConfig::new());
    let tuple = (a(),).mark_write(TaskConfig::new());
    assert_eq!(single.constraints, tuple.constraints);
}

struct K0;
struct K1;
struct K2;
struct K3;
struct K4;
struct K5;
struct K6;
struct K7;
struct K8;
struct K9;
struct K10;
struct K11;
struct K12;
struct K13;
struct K14;

#[test]
fn fifteen_members_fold_in_order() {
    let set = (
        DataLabel::<K0>::default(),
        DataLabel::<K1>::default(),
        DataLabel::<K2>::default(),
        DataLabel::<K3>::default(),
        DataLabel::<K4>::default(),
        DataLabel::<K5>::default(),
        DataLabel::<K6>::default(),
        DataLabel::<K7>::default(),
        DataLabel::<K8>::default(),
        DataLabel::<K9>::default(),
        DataLabel::<K10>::default(),
        DataLabel::<K11>::default(),
        DataLabel::<K12>::default(),
        DataLabel::<K13>::default(),
        DataLabel::<K14>::default(),
    );
    let expected = vec![
        TypeId::of::<K0>(),
        TypeId::of::<K1>(),
        TypeId::of::<K2>(),
        TypeId::of::<K3>(),
        TypeId::of::<K4>(),
        TypeId::of::<K5>(),
        TypeId::of::<K6>(),
        TypeId::of::<K7>(),
        TypeId::of::<K8>(),
        TypeId::of::<K9>(),
        TypeId::of::<K10>(),
        TypeId::of::<K11>(),
        TypeId::of::<K12>(),
        TypeId::of::<K13>(),
        TypeId::of::<K14>(),
    ];
    let written = set.mark_write(TaskConfig::new());
    let want: Vec<Constraint> = expected.iter().map(|k| Constraint::InSet(*k)).collect();
    assert_eq!(written.constraints, want);
    let read = set.mark_read(TaskConfig::new());
    let want: Vec<Constraint> = expected.iter().map(|k| Constraint::RunsAfter(*k)).collect();
    assert_eq!(read.constraints, want);
}

#[test]
fn builder_appends_in_call_order() {
    let cfg = TaskConfig::new().in_set(ka()).after(kb());
    assert_eq!(cfg.constraints, vec![Constraint::InSet(ka()), Constraint::RunsAfter(kb())]);
    assert!(cfg.is_in_set(&ka()));
    assert!(!cfg.is_in_set(&kb()));
}

fn hash_of<T: std::hash::Hash>(value: &T) -> u64 {
    let mut hasher = std::collections::hash_map::DefaultHasher::new();
    value.hash(&mut hasher);
    std::hash::Hasher::finish(&hasher)
}

#[test]
fn labels_hash_by_kind() {
    assert_eq!(hash_of(&a()), hash_of(&a()));
    assert_eq!(hash_of(&a()), hash_of(&ka()));
    assert_ne!(hash_of(&a()), hash_of(&b()));
}
