use sysbanner::align::{offset, registry_index};
use sysbanner::art::ArtBlock;
use sysbanner::registry::{build_registry, Action, ActionType, Fact, Platform, Scope};
use sysbanner::render::{dispatch, fact_value, render_plan, row_request, Label, RowRequest, SENTINEL};

fn art(lines: usize) -> ArtBlock {
    let text: Vec<String> = (0..lines).map(|i| format!("art line {}", i)).collect();
    ArtBlock::new(text).unwrap()
}

fn short_registry() -> Vec<Action<'static>> {
    vec![
        Action::host_info(Fact::Hostname),
        Action::delimiter(),
        Action::details("Arch", Fact::Arch),
        Action::details("Shell", Fact::Shell),
    ]
}

fn host_row() -> RowRequest<'static> {
    RowRequest { kind: ActionType::HostInfo, label: Label::User, fact: Some(Fact::Hostname) }
}

fn delimiter_row() -> RowRequest<'static> {
    RowRequest { kind: ActionType::Delimiter, label: Label::Empty, fact: None }
}

fn detail_row(name: &'static str, fact: Fact) -> RowRequest<'static> {
    RowRequest { kind: ActionType::Details, label: Label::Text(name), fact: Some(fact) }
}

fn labels(reg: &[Action<'static>]) -> Vec<(ActionType, Option<&'static str>)> {
    reg.iter().map(|a| (a.action_type(), a.name())).collect()
}

#[test]
fn tall_art_centres_short_registry() {
    let reg = short_registry();
    assert_eq!(offset(20), 4);
    let plan = render_plan(&art(20), &reg);
    assert_eq!(plan.len(), 20);
    for row in 0..4 {
        assert_eq!(plan[row], None);
    }
    assert_eq!(plan[4], Some(host_row()));
    assert_eq!(plan[5], Some(delimiter_row()));
    assert_eq!(plan[6], Some(detail_row("Arch", Fact::Arch)));
    assert_eq!(plan[7], Some(detail_row("Shell", Fact::Shell)));
    for row in 8..20 {
        assert_eq!(plan[row], None);
    }
}

#[test]
fn short_art_drops_leading_entry() {
    let reg = short_registry();
    assert_eq!(offset(10), -1);
    let plan = render_plan(&art(10), &reg);
    assert_eq!(plan.len(), 10);
    assert_eq!(plan[0], Some(delimiter_row()));
    assert_eq!(plan[1], Some(detail_row("Arch", Fact::Arch)));
    assert_eq!(plan[2], Some(detail_row("Shell", Fact::Shell)));
    for row in 3..10 {
        assert_eq!(plan[row], None);
    }
    assert!(!plan.contains(&Some(host_row())));
}

#[test]
fn failed_provider_yields_sentinel() {
    assert_eq!(SENTINEL, "unknown");
    assert_eq!(fact_value(None), "unknown");
    assert_eq!(fact_value(Some("x86_64".to_string())), "x86_64");
    let reg = short_registry();
    let plan = render_plan(&art(20), &reg);
    let values: Vec<String> = plan
        .iter()
        .map(|row| match row {
            Some(q) => match q.fact {
                Some(Fact::Arch) => fact_value(None),
                Some(_) => fact_value(Some("ok".to_string())),
                None => String::new(),
            },
            None => String::new(),
        })
        .collect();
    assert_eq!(values[6], "unknown");
    assert_eq!(values[7], "ok");
}

#[test]
fn pass_has_one_row_per_art_line() {
    let reg = build_registry(Platform::Linux);
    for lines in [1usize, 2, 5, 11, 12, 13, 40, 100] {
        assert_eq!(render_plan(&art(lines), &reg).len(), lines);
    }
    let empty: Vec<Action<'static>> = Vec::new();
    let plan = render_plan(&art(3), &empty);
    assert_eq!(plan, vec![None, None, None]);
}

#[test]
fn offset_is_half_height_less_six() {
    assert_eq!(offset(1), -6);
    assert_eq!(offset(12), 0);
    assert_eq!(offset(13), 0);
    assert_eq!(offset(31), 9);
    assert_eq!(offset(0), -6);
}

#[test]
fn entry_stands_on_row_k_plus_offset() {
    let reg = build_registry(Platform::Windows);
    for lines in [1usize, 4, 10, 12, 20, 30, 60] {
        let off = offset(lines);
        let plan = render_plan(&art(lines), &reg);
        for (k, a) in reg.iter().enumerate() {
            let row = k as i64 + off;
            let want = Some(dispatch(a));
            let at: Vec<usize> = (0..lines).filter(|&r| plan[r] == want && r as i64 == row).collect();
            if row >= 0 && (row as usize) < lines {
                assert_eq!(at, vec![row as usize]);
            } else {
                assert!(at.is_empty());
            }
        }
        let lo = off.max(0);
        let hi = (lines as i64).min(reg.len() as i64 + off);
        let filled = plan.iter().filter(|r| r.is_some()).count() as i64;
        assert_eq!(filled, (hi - lo).max(0));
    }
}

#[test]
fn filled_rows_in_a_short_block() {
    let reg = build_registry(Platform::Linux);
    assert_eq!(reg.len(), 13);
    let plan = render_plan(&art(8), &reg);
    let filled = plan.iter().filter(|r| r.is_some()).count();
    assert_eq!(filled, 8);
    assert_eq!(plan[0], Some(detail_row("Distro", Fact::Distro)));
}

#[test]
fn pass_is_repeatable() {
    let reg = build_registry(Platform::MacOs);
    let a = art(24);
    assert_eq!(render_plan(&a, &reg), render_plan(&a, &reg));
    let mut other: Vec<String> = Vec::new();
    for _ in 0..24 {
        other.push("x".to_string());
    }
    let b = ArtBlock::new(other).unwrap();
    assert_eq!(render_plan(&a, &reg), render_plan(&b, &reg));
}

#[test]
fn registry_build_is_pure() {
    for p in [Platform::Linux, Platform::Windows, Platform::MacOs, Platform::Other] {
        let r1 = build_registry(p);
        let r2 = build_registry(p);
        assert_eq!(r1.len(), r2.len());
        assert_eq!(labels(&r1), labels(&r2));
        let f1: Vec<Option<Fact>> = r1.iter().map(|a| a.func()).collect();
        let f2: Vec<Option<Fact>> = r2.iter().map(|a| a.func()).collect();
        assert_eq!(f1, f2);
    }
}

#[test]
fn linux_registry_order() {
    let reg = build_registry(Platform::Linux);
    let names: Vec<Option<&str>> = reg.iter().map(|a| a.name()).collect();
    assert_eq!(
        names,
        vec![
            None,
            None,
            Some("Distro"),
            Some("Kernel"),
            Some("Arch"),
            Some("Shell"),
            Some("Resolution"),
            Some("IP"),
            Some("CPU"),
            Some("RAM"),
            Some("Init System"),
            None,
            None,
        ]
    );
    assert_eq!(reg[0].action_type(), ActionType::HostInfo);
    assert_eq!(reg[0].func(), Some(Fact::Hostname));
    assert_eq!(reg[1].action_type(), ActionType::Delimiter);
    assert_eq!(reg[11].action_type(), ActionType::Delimiter);
    assert_eq!(reg[12].action_type(), ActionType::Colors);
}

#[test]
fn windows_registry_order() {
    let reg = build_registry(Platform::Windows);
    let names: Vec<Option<&str>> = reg.iter().map(|a| a.name()).collect();
    assert_eq!(
        names,
        vec![
            None,
            None,
            Some("Product"),
            Some("Arch"),
            Some("Shell"),
            Some("Resolution"),
            Some("IP"),
            Some("CPU"),
            Some("Disk usage"),
            Some("RAM"),
            Some("GPU"),
            None,
            None,
        ]
    );
}

#[test]
fn other_platforms_get_common_entries() {
    let mac = build_registry(Platform::MacOs);
    let other = build_registry(Platform::Other);
    assert_eq!(mac.len(), 10);
    assert_eq!(labels(&mac), labels(&other));
    let names: Vec<Option<&str>> = mac.iter().map(|a| a.name()).collect();
    assert_eq!(names[2..8].to_vec(), vec![Some("Arch"), Some("Shell"), Some("Resolution"), Some("IP"), Some("CPU"), Some("RAM")]);
}

#[test]
fn scope_membership() {
    assert!(Scope::Everywhere.applies_to(Platform::Other));
    assert!(Scope::Only(Platform::Linux).applies_to(Platform::Linux));
    assert!(!Scope::Only(Platform::Linux).applies_to(Platform::Windows));
}

#[test]
fn dispatch_by_kind() {
    assert_eq!(dispatch(&Action::host_info(Fact::Hostname)), host_row());
    assert_eq!(dispatch(&Action::delimiter()), delimiter_row());
    assert_eq!(dispatch(&Action::details("CPU", Fact::Cpu)), detail_row("CPU", Fact::Cpu));
    assert_eq!(
        dispatch(&Action::colors()),
        RowRequest { kind: ActionType::Colors, label: Label::Empty, fact: None }
    );
}

#[test]
fn index_out_of_range_is_blank() {
    assert_eq!(registry_index(0, 4, 10), None);
    assert_eq!(registry_index(4, 4, 10), Some(0));
    assert_eq!(registry_index(13, 4, 10), Some(9));
    assert_eq!(registry_index(14, 4, 10), None);
    assert_eq!(registry_index(0, -3, 10), Some(3));
    assert_eq!(registry_index(7, -3, 10), None);
    assert_eq!(registry_index(usize::MAX, i64::MIN, usize::MAX), None);
    let reg = short_registry();
    assert_eq!(row_request(3, 4, &reg), None);
    assert_eq!(row_request(5, 4, &reg), Some(delimiter_row()));
}

#[test]
fn empty_art_is_refused() {
    assert!(ArtBlock::new(Vec::new()).is_none());
    let a = ArtBlock::new(vec!["a".to_string(), "b".to_string()]).unwrap();
    assert_eq!(a.lines(), 2);
    assert_eq!(a.text()[1], "b");
}
