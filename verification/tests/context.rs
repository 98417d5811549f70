use fieldbus_drive::bus::BusState;
use fieldbus_drive::context::{
    check_identity, ByteRange, DeviceDescriptor, DeviceIdentity, HookState, MasterContext,
    RegionWidths, DRIVE_PRODUCT, DRIVE_VENDOR, IMAGE_SIZE, MAX_DEVICES,
};
use fieldbus_drive::error::ConfigError;
use fieldbus_drive::image::{InputsRecord, LayoutMismatch, OutputsRecord};

fn drive() -> DeviceIdentity {
    DeviceIdentity { vendor: DRIVE_VENDOR, product: DRIVE_PRODUCT }
}

fn other(n: u32) -> DeviceIdentity {
    DeviceIdentity { vendor: 0x100 + n, product: 0x200 + n }
}

fn exact() -> RegionWidths {
    RegionWidths { outputs: 6, inputs: 6 }
}

fn mapped_context(devices: usize) -> MasterContext {
    let mut context = MasterContext::create("eth0", 8).unwrap();
    let found: Vec<DeviceIdentity> = (0..devices as u32).map(other).collect();
    assert_eq!(context.discover(&found), Ok(devices));
    let widths: Vec<RegionWidths> = (0..devices).map(|_| exact()).collect();
    assert_eq!(context.finalize_mapping(&widths), Ok(devices * 12));
    context
}

#[test]
fn create_lays_out_all_storage() {
    let context = MasterContext::create("eth0", 8).unwrap();
    assert_eq!(context.interface(), "eth0");
    assert_eq!(context.capacity(), 8);
    assert_eq!(context.device_count(), 0);
    assert!(!context.is_mapped());
    assert_eq!(context.image().len(), IMAGE_SIZE);
    assert_eq!(IMAGE_SIZE, 4096);
    assert!(context.image().iter().all(|byte| *byte == 0));
    assert_eq!(context.outputs_len(), 0);
    assert_eq!(context.inputs_len(), 0);
}

#[test]
fn create_refuses_an_interface_without_a_name() {
    assert_eq!(MasterContext::create("", 8).err(), Some(ConfigError::NoInterface));
    assert_eq!(MasterContext::create("", 0).err(), Some(ConfigError::NoInterface));
}

#[test]
fn create_refuses_room_for_no_device() {
    assert_eq!(MasterContext::create("eth0", 0).err(), Some(ConfigError::NoCapacity));
}

#[test]
fn create_refuses_more_devices_than_the_image_serves() {
    assert_eq!(MAX_DEVICES, 341);
    assert!(MasterContext::create("eth0", 341).is_ok());
    assert_eq!(
        MasterContext::create("eth0", 342).err(),
        Some(ConfigError::CapacityTooLarge { capacity: 342, most: 341 })
    );
    assert_eq!(
        MasterContext::create("eth0", usize::MAX).err(),
        Some(ConfigError::CapacityTooLarge { capacity: usize::MAX, most: 341 })
    );
}

#[test]
fn devices_are_addressed_from_one() {
    let mut context = MasterContext::create("eth0", 8).unwrap();
    assert_eq!(context.discover(&[drive(), other(1)]), Ok(2));
    assert_eq!(context.device_count(), 2);
    assert!(context.device_at(0).is_none());
    assert_eq!(context.device_at(1).unwrap().identity(), drive());
    assert_eq!(context.device_at(2).unwrap().identity(), other(1));
    assert!(context.device_at(3).is_none());
    assert!(context.device_at(8).is_none());
    assert!(context.device_at(9).is_none());
    assert!(context.device_at(usize::MAX).is_none());
}

#[test]
fn discovered_device_is_in_init_with_nothing_mapped() {
    let mut context = MasterContext::create("eth0", 8).unwrap();
    context.discover(&[drive()]).unwrap();
    let expected = DeviceDescriptor {
        identity: drive(),
        state: BusState::Init,
        hook: HookState::Absent,
        outputs: ByteRange { start: 0, length: 0 },
        inputs: ByteRange { start: 0, length: 0 },
    };
    assert_eq!(*context.device_at(1).unwrap(), expected);
    assert_eq!(DeviceDescriptor::discovered(drive()), expected);
}

#[test]
fn discovery_of_nothing_is_an_answer() {
    let mut context = MasterContext::create("eth0", 8).unwrap();
    assert_eq!(context.discover(&[]), Ok(0));
    assert_eq!(context.device_count(), 0);
    assert!(context.device_at(1).is_none());
}

#[test]
fn discovery_fills_the_table_to_its_capacity_and_no_further() {
    let mut context = MasterContext::create("eth0", 2).unwrap();
    assert_eq!(
        context.discover(&[other(1), other(2), other(3)]),
        Err(ConfigError::TableFull { found: 3, capacity: 2 })
    );
    assert_eq!(context.device_count(), 0);
    assert_eq!(context.discover(&[other(1), other(2)]), Ok(2));
    assert_eq!(context.device_count(), 2);
}

#[test]
fn a_second_discovery_replaces_the_first() {
    let mut context = MasterContext::create("eth0", 4).unwrap();
    context.discover(&[other(1), other(2), other(3)]).unwrap();
    context.register_pre_operational_hook(2).unwrap();
    assert_eq!(context.discover(&[other(7)]), Ok(1));
    assert_eq!(context.device_at(1).unwrap().identity(), other(7));
    assert!(context.device_at(2).is_none());
    context.discover(&[other(7), other(8)]).unwrap();
    assert_eq!(context.device_at(2).unwrap().hook, HookState::Absent);
}

#[test]
fn identity_of_the_akd_drive() {
    assert_eq!(DRIVE_VENDOR, 0x6a);
    assert_eq!(DRIVE_PRODUCT, 0x414b44);
    assert_eq!(check_identity(drive()), Ok(()));
    assert_eq!(
        check_identity(DeviceIdentity { vendor: 0x6a, product: 0x414b45 }),
        Err(ConfigError::UnexpectedDevice { vendor: 0x6a, product: 0x414b45 })
    );
    assert_eq!(
        check_identity(DeviceIdentity { vendor: 0x6b, product: 0x414b44 }),
        Err(ConfigError::UnexpectedDevice { vendor: 0x6b, product: 0x414b44 })
    );
}

#[test]
fn device_state_can_be_recorded() {
    let mut context = MasterContext::create("eth0", 4).unwrap();
    context.discover(&[drive()]).unwrap();
    assert!(context.set_device_state(1, BusState::SafeOp));
    assert_eq!(context.device_at(1).unwrap().state, BusState::SafeOp);
    assert_eq!(context.device_at(1).unwrap().identity(), drive());
    assert!(!context.set_device_state(0, BusState::Op));
    assert!(!context.set_device_state(2, BusState::Op));
    assert_eq!(context.device_at(1).unwrap().state, BusState::SafeOp);
}

#[test]
fn hook_runs_exactly_once() {
    let mut context = MasterContext::create("eth0", 4).unwrap();
    context.discover(&[drive()]).unwrap();
    assert!(!context.take_hook(1));
    assert_eq!(context.register_pre_operational_hook(1), Ok(()));
    assert_eq!(context.device_at(1).unwrap().hook, HookState::Pending);
    assert_eq!(context.register_pre_operational_hook(1), Ok(()));
    assert!(context.take_hook(1));
    assert_eq!(context.device_at(1).unwrap().hook, HookState::Invoked);
    assert!(!context.take_hook(1));
    assert_eq!(
        context.register_pre_operational_hook(1),
        Err(ConfigError::HookSpent { device: 1 })
    );
    assert_eq!(context.device_at(1).unwrap().hook, HookState::Invoked);
}

#[test]
fn hook_needs_a_device() {
    let mut context = MasterContext::create("eth0", 4).unwrap();
    context.discover(&[drive()]).unwrap();
    assert_eq!(
        context.register_pre_operational_hook(0),
        Err(ConfigError::UnknownDevice { device: 0 })
    );
    assert_eq!(
        context.register_pre_operational_hook(2),
        Err(ConfigError::UnknownDevice { device: 2 })
    );
    assert!(!context.take_hook(0));
    assert!(!context.take_hook(2));
}

#[test]
fn mapping_gives_each_device_its_ranges() {
    let mut context = MasterContext::create("eth0", 8).unwrap();
    context.discover(&[other(1), other(2), other(3)]).unwrap();
    assert_eq!(context.finalize_mapping(&[exact(), exact(), exact()]), Ok(36));
    assert!(context.is_mapped());
    assert_eq!(context.outputs_len(), 18);
    assert_eq!(context.inputs_len(), 18);
    for device in 1..=3usize {
        let entry = context.device_at(device).unwrap();
        assert_eq!(
            entry.output_range(),
            ByteRange { start: (device - 1) * 6, length: 6 }
        );
        assert_eq!(
            entry.input_range(),
            ByteRange { start: 18 + (device - 1) * 6, length: 6 }
        );
        assert_eq!(entry.input_range().len(), 6);
        assert_eq!(entry.output_range().len(), 6);
        assert_eq!(entry.identity(), other(device as u32));
    }
}

#[test]
fn mapping_refuses_a_region_of_the_wrong_width() {
    let mut context = MasterContext::create("eth0", 8).unwrap();
    context.discover(&[other(1), other(2)]).unwrap();
    assert_eq!(
        context.finalize_mapping(&[exact(), RegionWidths { outputs: 6, inputs: 4 }]),
        Err(ConfigError::Layout {
            device: 2,
            mismatch: LayoutMismatch { expected: 6, actual: 4 }
        })
    );
    assert!(!context.is_mapped());
    assert_eq!(
        context.finalize_mapping(&[RegionWidths { outputs: 8, inputs: 4 }, exact()]),
        Err(ConfigError::Layout {
            device: 1,
            mismatch: LayoutMismatch { expected: 6, actual: 8 }
        })
    );
    assert_eq!(
        context.finalize_mapping(&[
            RegionWidths { outputs: 6, inputs: 0 },
            RegionWidths { outputs: 0, inputs: 6 }
        ]),
        Err(ConfigError::Layout {
            device: 1,
            mismatch: LayoutMismatch { expected: 6, actual: 0 }
        })
    );
    assert!(!context.is_mapped());
    assert_eq!(
        context.device_at(1).unwrap().output_range(),
        ByteRange { start: 0, length: 0 }
    );
    assert!(context.inputs_of(1).is_none());
    assert_eq!(context.finalize_mapping(&[exact(), exact()]), Ok(24));
}

#[test]
fn mapping_refuses_another_number_of_devices() {
    let mut context = MasterContext::create("eth0", 8).unwrap();
    context.discover(&[other(1), other(2)]).unwrap();
    assert_eq!(
        context.finalize_mapping(&[exact()]),
        Err(ConfigError::DeviceCountMismatch { expected: 2, actual: 1 })
    );
    assert_eq!(
        context.finalize_mapping(&[exact(), exact(), exact()]),
        Err(ConfigError::DeviceCountMismatch { expected: 2, actual: 3 })
    );
    assert!(!context.is_mapped());
}

#[test]
fn mapping_waits_for_every_hook() {
    let mut context = MasterContext::create("eth0", 8).unwrap();
    context.discover(&[other(1), other(2)]).unwrap();
    context.register_pre_operational_hook(2).unwrap();
    assert_eq!(
        context.finalize_mapping(&[exact(), exact()]),
        Err(ConfigError::HookPending { device: 2 })
    );
    // The first device at fault decides the error.
    assert_eq!(
        context.finalize_mapping(&[RegionWidths { outputs: 1, inputs: 6 }, exact()]),
        Err(ConfigError::Layout {
            device: 1,
            mismatch: LayoutMismatch { expected: 6, actual: 1 }
        })
    );
    assert!(context.take_hook(2));
    assert_eq!(context.finalize_mapping(&[exact(), exact()]), Ok(24));
    assert_eq!(context.device_at(2).unwrap().hook, HookState::Invoked);
}

#[test]
fn final_mapping_freezes_the_table() {
    let mut context = mapped_context(2);
    assert_eq!(context.discover(&[other(5)]), Err(ConfigError::AlreadyMapped));
    assert_eq!(
        context.register_pre_operational_hook(1),
        Err(ConfigError::AlreadyMapped)
    );
    assert_eq!(
        context.finalize_mapping(&[exact(), exact()]),
        Err(ConfigError::AlreadyMapped)
    );
    assert_eq!(context.device_count(), 2);
    assert!(context.set_device_state(2, BusState::Op));
    assert_eq!(context.device_at(2).unwrap().state, BusState::Op);
    assert_eq!(
        context.device_at(2).unwrap().input_range(),
        ByteRange { start: 18, length: 6 }
    );
}

#[test]
fn mapping_of_no_device_uses_no_byte() {
    let mut context = MasterContext::create("eth0", 8).unwrap();
    context.discover(&[]).unwrap();
    assert_eq!(context.finalize_mapping(&[]), Ok(0));
    assert!(context.is_mapped());
    assert!(context.outputs_of(1).is_none());
    assert!(context.load_inputs(&[]));
    assert!(!context.load_inputs(&[1, 2, 3, 4, 5, 6]));
}

#[test]
fn full_table_fits_the_image() {
    let mut context = MasterContext::create("eth0", 341).unwrap();
    let found: Vec<DeviceIdentity> = (0..341).map(other).collect();
    context.discover(&found).unwrap();
    let widths: Vec<RegionWidths> = (0..341).map(|_| exact()).collect();
    assert_eq!(context.finalize_mapping(&widths), Ok(4092));
    let last = context.device_at(341).unwrap();
    assert_eq!(last.output_range(), ByteRange { start: 2040, length: 6 });
    assert_eq!(last.input_range(), ByteRange { start: 4086, length: 6 });
    let record = OutputsRecord { target_velocity: -1, control_word: 0xABCD };
    assert!(context.set_outputs(341, record));
    assert_eq!(context.outputs_of(341), Some(record));
    assert_eq!(&context.image()[2040..2046], &[0xFF, 0xFF, 0xFF, 0xFF, 0xCD, 0xAB]);
}

#[test]
fn outputs_are_written_to_the_device_s_six_bytes_only() {
    let mut context = mapped_context(3);
    let record = OutputsRecord { target_velocity: 1000, control_word: 0x000F };
    assert!(context.set_outputs(2, record));
    let image = context.image();
    assert_eq!(&image[6..12], &[0xE8, 0x03, 0x00, 0x00, 0x0F, 0x00]);
    assert!(image[..6].iter().all(|byte| *byte == 0));
    assert!(image[12..].iter().all(|byte| *byte == 0));
    assert_eq!(context.outputs_of(2), Some(record));
    assert_eq!(context.outputs_of(1), Some(OutputsRecord::default()));
    assert_eq!(context.outputs_of(3), Some(OutputsRecord::default()));
    assert_eq!(
        context.inputs_of(2),
        Some(InputsRecord { position_actual_value: 0, status_word: 0 })
    );
}

#[test]
fn outputs_of_an_unserved_device_are_not_written() {
    let mut unmapped = MasterContext::create("eth0", 4).unwrap();
    unmapped.discover(&[drive()]).unwrap();
    let record = OutputsRecord { target_velocity: 5, control_word: 6 };
    assert!(!unmapped.set_outputs(1, record));
    assert!(unmapped.image().iter().all(|byte| *byte == 0));
    assert!(unmapped.outputs_of(1).is_none());
    assert!(unmapped.inputs_of(1).is_none());
    assert!(!unmapped.load_inputs(&[1, 2, 3, 4, 5, 6]));
    let mut mapped = mapped_context(1);
    assert!(!mapped.set_outputs(0, record));
    assert!(!mapped.set_outputs(2, record));
    assert!(mapped.image().iter().all(|byte| *byte == 0));
    assert!(mapped.outputs_of(0).is_none());
    assert!(mapped.inputs_of(2).is_none());
}

#[test]
fn received_inputs_fill_the_inputs_segment_only() {
    let mut context = mapped_context(2);
    let first = OutputsRecord { target_velocity: 3000, control_word: 0x000F };
    let second = OutputsRecord { target_velocity: -3000, control_word: 0x0006 };
    context.set_outputs(1, first);
    context.set_outputs(2, second);
    let outputs_before: Vec<u8> = context.image()[..12].to_vec();
    let received: [u8; 12] = [0x10, 0x27, 0, 0, 0x37, 0x02, 0xFF, 0xFF, 0xFF, 0xFF, 0x08, 0x00];
    assert!(context.load_inputs(&received));
    assert_eq!(&context.image()[..12], outputs_before.as_slice());
    assert_eq!(&context.image()[12..24], &received);
    assert!(context.image()[24..].iter().all(|byte| *byte == 0));
    assert_eq!(
        context.inputs_of(1),
        Some(InputsRecord { position_actual_value: 10000, status_word: 0x0237 })
    );
    assert_eq!(
        context.inputs_of(2),
        Some(InputsRecord { position_actual_value: -1, status_word: 0x0008 })
    );
    assert_eq!(context.outputs_of(1), Some(first));
    assert_eq!(context.outputs_of(2), Some(second));
}

#[test]
fn received_inputs_of_another_length_are_not_taken() {
    let mut context = mapped_context(2);
    assert!(!context.load_inputs(&[1, 2, 3, 4, 5, 6]));
    assert!(!context.load_inputs(&[0; 13]));
    assert!(context.image().iter().all(|byte| *byte == 0));
}
