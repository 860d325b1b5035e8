use ash::vk;
use cinder::device::{
    choose_present_mode, choose_surface_format, desired_image_count, score, select_physical_device,
    surface_data, surface_resolution, DeviceError, Extent2D, PhysicalDeviceCandidate,
    PhysicalDeviceType, QueueFamilySupport, SurfaceCapabilities, SurfaceFormat,
    FORMAT_B8G8R8_UNORM, PRESENT_MODE_FIFO, PRESENT_MODE_FIFO_RELAXED, PRESENT_MODE_IMMEDIATE,
    PRESENT_MODE_MAILBOX,
};

fn family(graphics: bool, surface: bool) -> QueueFamilySupport {
    QueueFamilySupport { graphics, surface }
}

fn device(ty: PhysicalDeviceType, families: Vec<QueueFamilySupport>) -> PhysicalDeviceCandidate {
    PhysicalDeviceCandidate { device_type: ty, queue_families: families }
}

#[test]
fn device_type_numbers() {
    assert_eq!(
        PhysicalDeviceType::from_raw(vk::PhysicalDeviceType::DISCRETE_GPU.as_raw()),
        PhysicalDeviceType::DiscreteGpu
    );
    assert_eq!(
        PhysicalDeviceType::from_raw(vk::PhysicalDeviceType::INTEGRATED_GPU.as_raw()),
        PhysicalDeviceType::IntegratedGpu
    );
    assert_eq!(PhysicalDeviceType::from_raw(77), PhysicalDeviceType::Other);
    assert_eq!(score(PhysicalDeviceType::DiscreteGpu), 1000);
    assert_eq!(score(PhysicalDeviceType::IntegratedGpu), 200);
    assert_eq!(score(PhysicalDeviceType::VirtualGpu), 1);
    assert_eq!(score(PhysicalDeviceType::Cpu), 0);
}

#[test]
fn discrete_gpu_preferred() {
    let devices = vec![
        device(PhysicalDeviceType::IntegratedGpu, vec![family(true, true)]),
        device(PhysicalDeviceType::DiscreteGpu, vec![family(true, false), family(true, true)]),
    ];
    assert!(matches!(select_physical_device(&devices), Ok((1, 1))));
}

#[test]
fn first_of_equal_devices_preferred() {
    let devices = vec![
        device(PhysicalDeviceType::Cpu, vec![family(true, true)]),
        device(PhysicalDeviceType::IntegratedGpu, vec![family(false, true), family(true, true)]),
        device(PhysicalDeviceType::IntegratedGpu, vec![family(true, true)]),
    ];
    assert!(matches!(select_physical_device(&devices), Ok((1, 1))));
}

#[test]
fn device_without_surface_support_skipped() {
    let devices = vec![
        device(PhysicalDeviceType::DiscreteGpu, vec![family(true, false), family(false, true)]),
        device(PhysicalDeviceType::VirtualGpu, vec![family(true, true)]),
    ];
    assert!(matches!(select_physical_device(&devices), Ok((1, 0))));
}

#[test]
fn no_suitable_device() {
    let devices = vec![device(PhysicalDeviceType::DiscreteGpu, vec![family(false, true)])];
    assert!(matches!(select_physical_device(&devices), Err(DeviceError::NoSuitableDevice)));
    assert!(matches!(select_physical_device(&vec![]), Err(DeviceError::NoSuitableDevice)));
}

#[test]
fn undefined_surface_format_read_as_bgr() {
    assert_eq!(FORMAT_B8G8R8_UNORM, vk::Format::B8G8R8_UNORM.as_raw());
    let f = choose_surface_format(&vec![
        SurfaceFormat { format: 0, color_space: 5 },
        SurfaceFormat { format: 44, color_space: 0 },
    ]);
    assert_eq!(f, SurfaceFormat { format: 30, color_space: 5 });
    let f = choose_surface_format(&vec![SurfaceFormat { format: 44, color_space: 0 }]);
    assert_eq!(f, SurfaceFormat { format: 44, color_space: 0 });
}

fn caps(min: u32, max: u32, width: u32) -> SurfaceCapabilities {
    SurfaceCapabilities {
        min_image_count: min,
        max_image_count: max,
        current_extent: Extent2D { width, height: 480 },
        supported_transforms: 1,
        current_transform: 1,
    }
}

#[test]
fn image_count_one_above_minimum_within_maximum() {
    assert_eq!(desired_image_count(&caps(2, 0, 640)), 3);
    assert_eq!(desired_image_count(&caps(2, 8, 640)), 3);
    assert_eq!(desired_image_count(&caps(3, 3, 640)), 3);
}

#[test]
fn resolution_from_window_when_surface_leaves_it_open() {
    let backbuffer = Extent2D { width: 1024, height: 768 };
    assert_eq!(surface_resolution(&caps(2, 0, u32::MAX), backbuffer), backbuffer);
    assert_eq!(
        surface_resolution(&caps(2, 0, 640), backbuffer),
        Extent2D { width: 640, height: 480 }
    );
}

#[test]
fn present_mode_preferences() {
    assert_eq!(PRESENT_MODE_FIFO, vk::PresentModeKHR::FIFO.as_raw());
    assert_eq!(PRESENT_MODE_MAILBOX, vk::PresentModeKHR::MAILBOX.as_raw());
    assert_eq!(PRESENT_MODE_IMMEDIATE, vk::PresentModeKHR::IMMEDIATE.as_raw());
    assert_eq!(PRESENT_MODE_FIFO_RELAXED, vk::PresentModeKHR::FIFO_RELAXED.as_raw());
    assert_eq!(choose_present_mode(false, &vec![0, 2, 3]), PRESENT_MODE_FIFO_RELAXED);
    assert_eq!(choose_present_mode(false, &vec![0, 1]), PRESENT_MODE_FIFO);
    assert_eq!(choose_present_mode(true, &vec![0, 1, 2]), PRESENT_MODE_MAILBOX);
    assert_eq!(choose_present_mode(true, &vec![0, 2]), PRESENT_MODE_IMMEDIATE);
    assert_eq!(choose_present_mode(true, &vec![2]), PRESENT_MODE_FIFO);
}

#[test]
fn surface_data_combines_choices() {
    let data = surface_data(
        &vec![SurfaceFormat { format: 44, color_space: 0 }],
        caps(2, 2, u32::MAX),
        Extent2D { width: 300, height: 200 },
        &vec![2, 3],
        false,
    );
    assert_eq!(data.desired_image_count, 2);
    assert_eq!(data.surface_resolution, Extent2D { width: 300, height: 200 });
    assert_eq!(data.present_mode, PRESENT_MODE_FIFO_RELAXED);
    assert_eq!(data.size(), Extent2D { width: 300, height: 200 });
    assert_eq!(data.format(), cinder::image::Format::B8G8R8A8_UNORM);
    let rect = data.surface_rect();
    assert_eq!((rect.x, rect.y, rect.width, rect.height), (0, 0, 300, 200));
}
