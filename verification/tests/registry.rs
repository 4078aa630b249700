use sigill::registry::{Registry, RegistryEntry, VulkanObject, VulkanObjectType};

fn ordinals_of(entries: &[RegistryEntry<&'static str>]) -> Vec<u32> {
    let mut v = Vec::new();
    for e in entries {
        v.push(e.kind.ordinal());
    }
    v
}

fn assert_sorted(v: &[u32]) {
    for w in v.windows(2) {
        assert!(w[0] <= w[1], "teardown order not sorted: {:?}", v);
    }
}

fn all_kinds() -> Vec<VulkanObjectType> {
    vec![
        VulkanObjectType::TriangleShader,
        VulkanObjectType::DrawImage,
        VulkanObjectType::Framebuffer,
        VulkanObjectType::Swapchain,
        VulkanObjectType::Surface,
        VulkanObjectType::Device,
        VulkanObjectType::DebugUtilsMessenger,
    ]
}

#[test]
fn teardown_sorted_regardless_of_insertion_order() {
    let kinds = all_kinds();
    let mut permutations: Vec<Vec<VulkanObjectType>> = Vec::new();
    permutations.push(kinds.clone());
    let mut reversed = kinds.clone();
    reversed.reverse();
    permutations.push(reversed);
    permutations.push(vec![
        VulkanObjectType::Swapchain,
        VulkanObjectType::DebugUtilsMessenger,
        VulkanObjectType::TriangleShader,
        VulkanObjectType::Device,
        VulkanObjectType::DrawImage,
        VulkanObjectType::Surface,
        VulkanObjectType::Framebuffer,
    ]);
    permutations.push(vec![
        VulkanObjectType::Device,
        VulkanObjectType::Surface,
        VulkanObjectType::DebugUtilsMessenger,
        VulkanObjectType::TriangleShader,
        VulkanObjectType::Swapchain,
        VulkanObjectType::Framebuffer,
        VulkanObjectType::DrawImage,
    ]);
    for perm in permutations {
        let mut registry: Registry<&'static str> = Registry::new();
        for kind in &perm {
            registry.set_object(*kind, 7, "object");
        }
        let order = registry.teardown(true);
        assert_eq!(order.len(), perm.len());
        assert_sorted(&ordinals_of(&order));
    }
}

#[test]
fn teardown_destroys_device_after_swapchain() {
    let mut registry: Registry<u64> = Registry::new();
    registry.set_object(VulkanObjectType::Device, 1, 10);
    registry.set_object(VulkanObjectType::Swapchain, 2, 20);
    let order = registry.teardown(true);
    assert_eq!(order.len(), 2);
    assert!(matches!(order[0].kind, VulkanObjectType::Swapchain));
    assert!(matches!(order[1].kind, VulkanObjectType::Device));
}

#[test]
fn get_absent_kind_returns_none() {
    let registry: Registry<u64> = Registry::new();
    assert!(registry.get_object(VulkanObjectType::Device, 0).is_none());
}

#[test]
fn get_mut_absent_kind_returns_none() {
    let mut registry: Registry<u64> = Registry::new();
    registry.set_object(VulkanObjectType::Surface, 3, 5);
    assert!(registry.get_object_mut(VulkanObjectType::Device, 3).is_none());
}

#[test]
fn mismatched_type_tag_fails_cleanly() {
    let mut registry: Registry<u64> = Registry::new();
    registry.set_object(VulkanObjectType::Device, 1, 42);
    // overwrite the slot with a value of another stored type
    registry.set_object(VulkanObjectType::Device, 2, 43);
    // a lookup expecting the old type must not hand the new data back
    assert!(registry.get_object(VulkanObjectType::Device, 1).is_none());
    assert_eq!(registry.get_object(VulkanObjectType::Device, 2), Some(&43));
}

#[test]
fn get_returns_stored_object() {
    let mut registry: Registry<&'static str> = Registry::new();
    registry.set_object(VulkanObjectType::DrawImage, 9, "draw image");
    assert_eq!(
        registry.get_object(VulkanObjectType::DrawImage, 9),
        Some(&"draw image")
    );
}

#[test]
fn get_mut_updates_in_place() {
    let mut registry: Registry<u64> = Registry::new();
    registry.set_object(VulkanObjectType::Framebuffer, 4, 1);
    if let Some(v) = registry.get_object_mut(VulkanObjectType::Framebuffer, 4) {
        *v = 2;
    } else {
        panic!("entry must be present");
    }
    assert_eq!(registry.get_object(VulkanObjectType::Framebuffer, 4), Some(&2));
}

#[test]
fn ordinals_follow_declaration_order() {
    for (i, k) in all_kinds().iter().enumerate() {
        assert_eq!(k.ordinal() as usize, i);
    }
}

#[test]
fn vulkan_object_pairs_object_and_data() {
    let o = VulkanObject::new(7u64, "destruction data");
    assert_eq!(o.object, 7);
    assert_eq!(o.data, "destruction data");
    let u: VulkanObject<u64, Option<&'static str>> = VulkanObject::undropped(9);
    assert_eq!(u.object, 9);
    assert!(u.data.is_none());
}
