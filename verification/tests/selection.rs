use renderer::error::{ErrorKind, RendererError};
use renderer::queue::{
    find_queue_family, select_physical_device, PresentSupport, QueueFamily, QUEUE_GRAPHICS,
};

fn family(queue_flags: u32, present: PresentSupport) -> QueueFamily {
    QueueFamily { queue_flags, present }
}

fn no_device(code: Option<i32>) -> RendererError {
    RendererError { kind: ErrorKind::NoSuitableDevice, code }
}

#[test]
fn graphics_bit_matches_the_graphics_interface() {
    assert_eq!(QUEUE_GRAPHICS, ash::vk::QueueFlags::GRAPHICS.as_raw());
}

#[test]
fn first_physical_device_is_chosen() {
    assert_eq!(select_physical_device(1), Ok(0));
    assert_eq!(select_physical_device(4), Ok(0));
}

#[test]
fn no_physical_device_is_no_suitable_device() {
    assert_eq!(select_physical_device(0), Err(no_device(None)));
}

#[test]
fn only_suitable_family_is_chosen() {
    let families = vec![
        family(2, PresentSupport::Supported),
        family(1, PresentSupport::Unsupported),
        family(4, PresentSupport::Unsupported),
        family(7, PresentSupport::Supported),
        family(6, PresentSupport::Supported),
    ];
    assert_eq!(find_queue_family(&families), Ok(3));
}

#[test]
fn first_of_several_suitable_families_is_chosen() {
    let families = vec![
        family(6, PresentSupport::Supported),
        family(1, PresentSupport::Supported),
        family(15, PresentSupport::Supported),
    ];
    assert_eq!(find_queue_family(&families), Ok(1));
}

#[test]
fn graphics_is_read_from_its_own_bit() {
    assert_eq!(find_queue_family(&vec![family(2, PresentSupport::Supported)]), Err(no_device(None)));
    assert_eq!(find_queue_family(&vec![family(0, PresentSupport::Supported)]), Err(no_device(None)));
    assert_eq!(find_queue_family(&vec![family(1, PresentSupport::Supported)]), Ok(0));
    assert_eq!(find_queue_family(&vec![family(3, PresentSupport::Supported)]), Ok(0));
    assert_eq!(find_queue_family(&vec![family(0xFFFF_FFFE, PresentSupport::Supported)]), Err(no_device(None)));
}

#[test]
fn no_suitable_family_is_no_suitable_device() {
    let families = vec![
        family(1, PresentSupport::Unsupported),
        family(2, PresentSupport::Supported),
    ];
    assert_eq!(find_queue_family(&families), Err(no_device(None)));
    assert_eq!(find_queue_family(&Vec::new()), Err(no_device(None)));
}

#[test]
fn failed_query_stops_the_scan() {
    let families = vec![
        family(1, PresentSupport::Unsupported),
        family(2, PresentSupport::QueryFailed(-4)),
        family(1, PresentSupport::Supported),
    ];
    assert_eq!(find_queue_family(&families), Err(no_device(Some(-4))));
}

#[test]
fn failed_query_after_the_chosen_family_is_not_seen() {
    let families = vec![
        family(1, PresentSupport::Supported),
        family(1, PresentSupport::QueryFailed(-4)),
    ];
    assert_eq!(find_queue_family(&families), Ok(0));
}
