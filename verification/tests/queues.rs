use sigill::constants;
use sigill::queues::{get_queue_family_map, QueueFamilies, Queue, QueueType};

const G: u32 = constants::QUEUE_GRAPHICS;
const C: u32 = constants::QUEUE_COMPUTE;
const T: u32 = constants::QUEUE_TRANSFER;

#[test]
fn map_never_assigns_a_pair_twice() {
    // one family serves all three roles: indices must differ
    let families = vec![G | C | T];
    let flags = vec![G, C, T];
    let map = get_queue_family_map(&families, &flags);
    let entries = map.inner();
    assert_eq!(entries.len(), 3);
    for i in 0..entries.len() {
        for j in (i + 1)..entries.len() {
            assert!(
                (entries[i].family_index, entries[i].queue_index)
                    != (entries[j].family_index, entries[j].queue_index)
            );
        }
    }
}

#[test]
fn map_has_at_most_one_entry_per_flag() {
    let families = vec![G | C];
    let flags = vec![G, G, C, G];
    let map = get_queue_family_map(&families, &flags);
    assert_eq!(map.inner().len(), 2);
}

#[test]
fn map_assigns_first_supporting_family() {
    let families = vec![C, G | C, G];
    let flags = vec![G, C];
    let map = get_queue_family_map(&families, &flags);
    assert_eq!(map.get_queue_info(G), Some((1, 0)));
    assert_eq!(map.get_queue_info(C), Some((0, 0)));
}

#[test]
fn map_counts_indices_up_within_a_family() {
    let families = vec![G | C | T];
    let flags = vec![G, C, T];
    let map = get_queue_family_map(&families, &flags);
    assert_eq!(map.get_queue_info(G), Some((0, 0)));
    assert_eq!(map.get_queue_info(C), Some((0, 1)));
    assert_eq!(map.get_queue_info(T), Some((0, 2)));
}

#[test]
fn map_leaves_unsupported_flags_out() {
    let families = vec![G];
    let flags = vec![G, C];
    let map = get_queue_family_map(&families, &flags);
    assert_eq!(map.inner().len(), 1);
    assert!(map.get_queue_info(C).is_none());
}

#[test]
fn multi_bit_key_maps_one_family_to_several_roles() {
    let families = vec![C, G | C];
    let flags = vec![G | C];
    let map = get_queue_family_map(&families, &flags);
    assert_eq!(map.get_queue_info(G | C), Some((1, 0)));
}

#[test]
fn create_info_priorities_span_max_index_plus_one() {
    // both roles land in family 0, at indices 0 and 1
    let families = vec![G | C];
    let flags = vec![G, C];
    let map = get_queue_family_map(&families, &flags);
    let queue_families = QueueFamilies::new_empty(&map);
    let infos = queue_families.get_queue_create_infos(&map);
    assert_eq!(infos.len(), 1);
    assert_eq!(infos[0].family_index, 0);
    assert_eq!(infos[0].priorities.len(), 2);
    // the graphics slot carries its priority, the unassigned one defaults
    assert_eq!(infos[0].priorities[0], constants::QUEUE_PRIORITY_UNIT);
    assert_eq!(infos[0].priorities[1], 0);
}

#[test]
fn create_info_present_role_slot_carries_its_priority() {
    let families = vec![G | C];
    let flags = vec![G, C];
    let map = get_queue_family_map(&families, &flags);
    let queue_families = QueueFamilies::new_empty(&map);
    // family 0 presents, so the present role lands on the compute slot's
    // family at the last supported assignment
    let queue_families = queue_families.query_present_mode_queue(&map, &vec![true]);
    let present_info = *queue_families.present_mode().queue_info();
    assert_eq!(present_info.0, 0);
    let infos = queue_families.get_queue_create_infos(&map);
    assert_eq!(infos.len(), 1);
    assert_eq!(infos[0].priorities.len(), 2);
    assert_eq!(infos[0].priorities[present_info.1 as usize], constants::QUEUE_PRIORITY_UNIT);
}

#[test]
fn create_infos_deduplicate_families() {
    let families = vec![G, C];
    let flags = vec![G, C];
    let map = get_queue_family_map(&families, &flags);
    let queue_families = QueueFamilies::new_empty(&map);
    let infos = queue_families.get_queue_create_infos(&map);
    assert_eq!(infos.len(), 2);
    assert!(infos[0].family_index != infos[1].family_index);
    for info in &infos {
        assert_eq!(info.priorities.len(), 1);
    }
}

#[test]
fn present_role_resolves_to_last_supported_assignment() {
    let families = vec![G, C];
    let flags = vec![G, C];
    let map = get_queue_family_map(&families, &flags);
    let queue_families = QueueFamilies::new_empty(&map);
    // only the compute family can present
    let queue_families = queue_families.query_present_mode_queue(&map, &vec![false, true]);
    assert_eq!(*queue_families.present_mode().queue_info(), (1, 0));
    assert_eq!(*queue_families.graphics().queue_info(), (0, 0));
}

#[test]
fn graphics_role_comes_from_the_map() {
    let families = vec![C, G];
    let flags = vec![G];
    let map = get_queue_family_map(&families, &flags);
    let queue_families = QueueFamilies::new_empty(&map);
    assert_eq!(*queue_families.graphics().queue_info(), (1, 0));
    assert_eq!(queue_families.graphics().priority, constants::QUEUE_PRIORITY_UNIT);
    assert!(queue_families.graphics().handle.is_none());
}

#[test]
fn populate_handles_stores_native_handles() {
    let families = vec![G];
    let flags = vec![G];
    let map = get_queue_family_map(&families, &flags);
    let queue_families = QueueFamilies::new_empty(&map);
    let mut queue_families = queue_families.query_present_mode_queue(&map, &vec![true]);
    queue_families.populate_handles(11, Some(22));
    assert_eq!(queue_families.graphics().handle(), 11);
    assert_eq!(queue_families.present_mode().handle(), 22);
}

#[test]
fn queue_new_empty_has_no_handle() {
    let q = Queue::new_empty((3, 1), 50);
    assert_eq!(*q.queue_info(), (3, 1));
    assert_eq!(q.priority, 50);
    assert!(q.handle.is_none());
    let mut q = q;
    q.populate_handle(77);
    assert_eq!(q.handle(), 77);
}

#[test]
fn queue_roles_are_two() {
    assert!(QueueType::Graphics != QueueType::PresentMode);
}
