use nova_ge::device::{find_memory_type, pick_queue_family, QueueFamilySupport};

fn fam(graphics: bool, present: bool) -> QueueFamilySupport {
    QueueFamilySupport { graphics, present }
}

#[test]
fn first_suitable_family_of_first_suitable_device() {
    let devices = vec![
        vec![fam(true, false), fam(false, true)],
        vec![fam(false, false), fam(true, true), fam(true, true)],
        vec![fam(true, true)],
    ];
    assert_eq!(pick_queue_family(&devices), Some((1, 1)));
}

#[test]
fn no_suitable_device() {
    let devices = vec![vec![fam(true, false)], vec![], vec![fam(false, true)]];
    assert_eq!(pick_queue_family(&devices), None);
    assert_eq!(pick_queue_family(&vec![]), None);
}

#[test]
fn first_device_wins_when_several_fit() {
    let devices = vec![vec![fam(false, true), fam(true, true)], vec![fam(true, true)]];
    assert_eq!(pick_queue_family(&devices), Some((0, 1)));
}

#[test]
fn memory_type_needs_filter_bit_and_all_properties() {
    // host visible (2) | host coherent (4)
    let types = vec![6, 1, 7, 6];
    assert_eq!(find_memory_type(0b1110, &types, 6), Some(2));
    assert_eq!(find_memory_type(0b1111, &types, 6), Some(0));
    assert_eq!(find_memory_type(0b1000, &types, 6), Some(3));
    assert_eq!(find_memory_type(0b0010, &types, 6), None);
    assert_eq!(find_memory_type(0b0010, &types, 1), Some(1));
}

#[test]
fn no_memory_type_fits() {
    let types = vec![1, 2];
    assert_eq!(find_memory_type(u32::MAX, &types, 4), None);
    assert_eq!(find_memory_type(u32::MAX, &vec![], 0), None);
}

#[test]
fn thirty_second_memory_type_is_reachable() {
    let mut types = vec![0u32; 32];
    types[31] = 8;
    assert_eq!(find_memory_type(1u32 << 31, &types, 8), Some(31));
    assert_eq!(find_memory_type(1u32 << 31, &types, 0), Some(31));
    assert_eq!(find_memory_type(u32::MAX, &types, 0), Some(0));
}
