use module_pull::resolver::{DependencyResolver, DependencyTable, resolve_all_dependencies};
use module_pull::ModuleId;

fn id(v: u64) -> ModuleId {
    ModuleId::new(v)
}

fn ids(vs: &[u64]) -> Vec<ModuleId> {
    vs.iter().map(|v| id(*v)).collect()
}

fn values(r: &Vec<ModuleId>) -> Vec<u64> {
    r.iter().map(|m| m.value).collect()
}

fn diamond_with_cycle() -> DependencyTable {
    // 1 -> {2, 3}, 2 -> {4}, 3 -> {4}, 4 -> {1} (cycle back to the root),
    // 5 is recorded but unreachable.
    let mut t = DependencyTable::new();
    t.record(id(1), ids(&[2, 3]));
    t.record(id(2), ids(&[4]));
    t.record(id(3), ids(&[4]));
    t.record(id(4), ids(&[1]));
    t.record(id(5), ids(&[]));
    t
}

#[test]
fn resolves_diamond_and_cycle_to_exact_closure() {
    let t = diamond_with_cycle();
    let result = resolve_all_dependencies(&ids(&[1]), &t);
    assert_eq!(values(&result), vec![1, 2, 3, 4]);
}

#[test]
fn unreachable_entries_are_not_resolved() {
    let t = diamond_with_cycle();
    let result = resolve_all_dependencies(&ids(&[2]), &t);
    assert_eq!(values(&result), vec![1, 2, 3, 4]);
    let result5 = resolve_all_dependencies(&ids(&[5]), &t);
    assert_eq!(values(&result5), vec![5]);
}

#[test]
fn duplicate_edges_and_duplicate_roots_change_nothing() {
    let mut t = DependencyTable::new();
    t.record(id(7), ids(&[8, 8, 8]));
    t.record(id(8), ids(&[7, 7]));
    let result = resolve_all_dependencies(&ids(&[7, 7, 8]), &t);
    assert_eq!(values(&result), vec![7, 8]);
}

#[test]
fn output_is_sorted_not_discovery_ordered() {
    let mut t = DependencyTable::new();
    t.record(id(9), ids(&[3]));
    t.record(id(3), ids(&[6]));
    t.record(id(6), ids(&[]));
    let result = resolve_all_dependencies(&ids(&[9]), &t);
    assert_eq!(values(&result), vec![3, 6, 9]);
}

#[test]
fn resolving_twice_is_idempotent() {
    let t = diamond_with_cycle();
    let first = resolve_all_dependencies(&ids(&[1]), &t);
    let second = resolve_all_dependencies(&ids(&[1]), &t);
    assert_eq!(values(&first), values(&second));
}

#[test]
fn empty_roots_resolve_to_nothing() {
    let t = diamond_with_cycle();
    let result = resolve_all_dependencies(&ids(&[]), &t);
    assert_eq!(values(&result), Vec::<u64>::new());
}

#[test]
fn facade_dependencies_answers_recorded_identifiers_only() {
    let t = diamond_with_cycle();
    let deps = t.facade_dependencies(&id(1)).expect("recorded");
    assert_eq!(values(deps), vec![2, 3]);
    assert!(t.facade_dependencies(&id(42)).is_none());
}

#[test]
fn step_machine_visits_each_identifier_once() {
    // Drive the resolver by hand, as a caller backed by remote fetches
    // would, and feed it duplicate-laden answers.
    let mut r = DependencyResolver::new(&ids(&[10]));
    let mut handed_out = Vec::new();
    loop {
        match r.next_unvisited() {
            None => break,
            Some(x) => {
                handed_out.push(x.value);
                let answer = match x.value {
                    10 => ids(&[11, 11, 10]),
                    11 => ids(&[10]),
                    _ => ids(&[]),
                };
                r.supply_dependencies(x, &answer);
            }
        }
    }
    handed_out.sort();
    assert_eq!(handed_out, vec![10, 11]);
    let result = r.into_sorted_dependencies();
    assert_eq!(values(&result), vec![10, 11]);
}
