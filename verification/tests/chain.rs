use instar::abi::{IMAGE_FORMAT_QCOW2, IMAGE_FORMAT_RAW, MAX_CHAIN_DEVICES};
use instar::chain::{
    create_single_image_chain, discovery_failure, list_devices, open_chain_devices,
    print_backing_chain, probe_outcome, total_devices, write_chain_config,
    write_chain_device_entries, ChainError, ChainImage, ChainWalk, ExternalDataFile,
    FlatDescriptor, InfoOperationResult,
};
use instar::formats::{image_format_from_u32, image_format_name, ImageFormat};
use instar::paths::{binary_dir, is_absolute, join};
use instar::rebase::{combined_chain, without_overlay};

fn image(path: &str, virtual_size: u64) -> ChainImage {
    create_single_image_chain(path, ImageFormat::Qcow2, IMAGE_FORMAT_QCOW2, "qcow2", virtual_size, 4096, 65536, 9)
        .remove(0)
}

fn with_data(mut image: ChainImage, path: &str) -> ChainImage {
    image.external_data_files.push(ExternalDataFile {
        path: path.to_string(),
        extent_size: 77,
        file_size: 88,
    });
    image
}

fn probed(backing: Option<&str>, data: Option<&str>, actual_size: u64) -> InfoOperationResult {
    InfoOperationResult {
        format: "qcow2".to_string(),
        virtual_size: 1 << 20,
        actual_size,
        cluster_size: 512,
        flags: 5,
        backing_file: backing.map(str::to_string),
        external_data_file: data.map(str::to_string),
    }
}

#[test]
fn a_walk_lists_images_from_top_to_base() {
    let mut walk = ChainWalk::new(16);
    walk.enter("/top").unwrap();
    let info = probed(Some("base"), Some("data"), 0);
    assert_eq!(walk.wants_data_file(&info), Some("data".to_string()));
    let data = ExternalDataFile { path: "/data".to_string(), extent_size: 10, file_size: 10 };
    let next = walk.add_image(info, ImageFormat::Qcow2, IMAGE_FORMAT_QCOW2, "qcow2", 4096, Some(data));
    assert_eq!(next, Some("base".to_string()));
    walk.enter("/base").unwrap();
    let info = probed(None, Some("ignored"), 100);
    assert_eq!(walk.wants_data_file(&info), None);
    let next = walk.add_image(info, ImageFormat::Qcow2, IMAGE_FORMAT_QCOW2, "qcow2", 4096, None);
    assert_eq!(next, None);
    assert_eq!(walk.images.len(), 2);
    assert_eq!(walk.images[0].path, "/top");
    assert_eq!(walk.images[0].actual_size, 4096);
    assert_eq!(walk.images[0].external_data_files[0].path, "/data");
    assert_eq!(walk.images[1].actual_size, 100);
    assert_eq!(walk.images[1].external_data_files.len(), 0);
    assert_eq!(total_devices(&walk.images), 3);
}

#[test]
fn a_walk_refuses_circles_and_depths() {
    let mut walk = ChainWalk::new(2);
    walk.enter("/a").unwrap();
    walk.add_image(probed(Some("x"), None, 1), ImageFormat::Qcow2, 2, "qcow2", 1, None);
    match walk.enter("/a") {
        Err(ChainError::CircularReference(path)) => assert_eq!(path, "/a"),
        other => panic!("{other:?}"),
    }
    walk.enter("/b").unwrap();
    walk.add_image(probed(Some("x"), None, 1), ImageFormat::Qcow2, 2, "qcow2", 1, None);
    assert!(matches!(walk.enter("/c"), Err(ChainError::TooDeep(_))));
}

#[test]
fn a_descriptor_brings_its_extents() {
    let mut walk = ChainWalk::new(16);
    walk.enter("/d.vmdk").unwrap();
    let extents = vec![
        ExternalDataFile { path: "/1".to_string(), extent_size: 1, file_size: 2 },
        ExternalDataFile { path: "/2".to_string(), extent_size: 3, file_size: 4 },
    ];
    let descriptor =
        FlatDescriptor { virtual_size: 4, parent_hint: Some("p".to_string()), extents };
    assert_eq!(walk.add_descriptor(descriptor, 3, "vmdk", 300), Some("p".to_string()));
    let d = &walk.images[0];
    assert_eq!((d.virtual_size, d.actual_size, d.cluster_size, d.flags), (4, 300, 0, 0));
    assert_eq!(d.format, ImageFormat::VmdkDescriptor);
    assert_eq!(d.external_data_files.len(), 2);
}

#[test]
fn device_entries_point_to_their_data() {
    let images = vec![with_data(image("/a", 10), "/x"), image("/b", 20)];
    let entries = list_devices(&images, 2);
    assert_eq!(entries.len(), 3);
    assert_eq!((entries[0].format, entries[0].data_device), (IMAGE_FORMAT_QCOW2, 3));
    assert_eq!((entries[1].format, entries[1].virtual_size), (IMAGE_FORMAT_RAW, 77));
    assert_eq!((entries[1].actual_size, entries[1].flags), (88, 0));
    assert_eq!((entries[2].virtual_size, entries[2].data_device), (20, 0));
    let bytes = write_chain_device_entries(&images, 2);
    assert_eq!(bytes.len(), 96);
    assert_eq!(&bytes[..4], &2u32.to_le_bytes());
    assert_eq!(&bytes[4..8], &9u32.to_le_bytes());
    assert_eq!(&bytes[8..16], &10u64.to_le_bytes());
    assert_eq!(&bytes[16..24], &4096u64.to_le_bytes());
    assert_eq!(&bytes[24..28], &65536u32.to_le_bytes());
    assert_eq!(&bytes[28..32], &3u32.to_le_bytes());
    assert_eq!(&bytes[32..36], &1u32.to_le_bytes());
    let config = write_chain_config(&images);
    assert_eq!(&config[..4], &0x4348414Eu32.to_le_bytes());
    assert_eq!(&config[4..8], &3u32.to_le_bytes());
    assert_eq!(&config[8..12], &2u32.to_le_bytes());
    assert_eq!(&config[12..16], &[0; 4]);
    assert_eq!(&config[16 + 28..16 + 32], &1u32.to_le_bytes());
}

#[test]
fn no_more_devices_are_described_than_a_guest_can_have() {
    let mut images = Vec::new();
    for _ in 0..20 {
        images.push(image("/i", 1));
    }
    assert_eq!(list_devices(&images, 0).len(), MAX_CHAIN_DEVICES);
    assert_eq!(list_devices(&images, 10).len(), MAX_CHAIN_DEVICES - 10);
    for start in [MAX_CHAIN_DEVICES, MAX_CHAIN_DEVICES + 1, usize::MAX] {
        assert!(list_devices(&images, start).is_empty());
        assert!(write_chain_device_entries(&images, start).is_empty());
    }
    assert_eq!(&write_chain_config(&images)[4..8], &16u32.to_le_bytes());
    assert_eq!(total_devices(&images), 20);
}

#[test]
fn devices_open_in_the_order_of_their_entries() {
    let images = vec![with_data(image("/a", 10), "/x"), image("/b", 20)];
    let opened = open_chain_devices(&images, &[1, 9]);
    let seen: Vec<(&str, bool)> =
        opened.iter().map(|d| (d.path.as_str(), d.read_only)).collect();
    assert_eq!(seen, [("/a", true), ("/x", false), ("/b", true)]);
}

#[test]
fn chains_are_cut_and_joined() {
    let parents = without_overlay(vec![image("/o", 1), image("/p", 2)]);
    assert_eq!(parents.len(), 1);
    assert_eq!(parents[0].path, "/p");
    assert_eq!(without_overlay(Vec::new()).len(), 0);
    let all = combined_chain(parents, Some(vec![image("/n", 3)]));
    assert_eq!(all.len(), 2);
    assert_eq!(all[1].path, "/n");
}

#[test]
fn a_chain_is_printed_image_by_image() {
    let mut top = with_data(image("/a", 1 << 20), "/x");
    top.backing_file_raw = Some("b".to_string());
    let mut base = image("/b", 1536);
    base.cluster_size = 0;
    assert_eq!(
        print_backing_chain(&vec![top, base]),
        "Chain: 2 image(s)\n  External data file: /x\n  [0] /a (qcow2) -> b\n      \
         virtual size: 1 MiB (1048576 bytes)\n      disk size: 4 KiB (4096 bytes)\n      \
         cluster size: 65536 bytes\n  [1] /b (qcow2)\n      virtual size: 1.5 KiB (1536 bytes)\n      \
         disk size: 4 KiB (4096 bytes)\n"
    );
}

#[test]
fn a_silent_guest_is_a_failed_probe() {
    assert_eq!(probe_outcome(None).unwrap_err(), "No info result received from guest");
    assert_eq!(probe_outcome(Some(probed(None, None, 1))).unwrap().cluster_size, 512);
    assert_eq!(discovery_failure(None, "x"), "error discovering backing chain: x");
    assert_eq!(discovery_failure(Some("/i"), "x"), "error discovering backing chain for /i: x");
}

#[test]
fn formats_have_codes_and_names() {
    assert_eq!(image_format_from_u32(2), ImageFormat::Qcow2);
    assert_eq!(image_format_from_u32(5), ImageFormat::Vhd);
    assert_eq!(image_format_from_u32(77), ImageFormat::Unknown);
    assert_eq!(image_format_name(8), "unknown");
}

#[test]
fn paths_join_as_directories_do() {
    assert!(is_absolute("/a"));
    assert!(!is_absolute("a/b"));
    assert!(!is_absolute(""));
    assert_eq!(join("/d", "f"), "/d/f");
    assert_eq!(join("/d/", "f"), "/d/f");
    assert_eq!(join("/d", "/f"), "/f");
    assert_eq!(join("", "f"), "f");
}

#[test]
fn the_first_directory_with_the_core_binary_wins() {
    assert_eq!(binary_dir(Some("/over"), true, "/exe", true, true), "/over");
    assert_eq!(binary_dir(Some("/over"), true, "/exe", false, false), "/over");
    assert_eq!(binary_dir(Some("/over"), false, "/exe", true, true), "/exe");
    assert_eq!(binary_dir(Some("/over"), false, "/exe", false, true), "/usr/lib/instar");
    assert_eq!(binary_dir(Some("/over"), false, "/exe", false, false), "/exe");
    assert_eq!(binary_dir(None, false, "/exe", true, true), "/exe");
    assert_eq!(binary_dir(None, false, "/exe", false, true), "/usr/lib/instar");
    assert_eq!(binary_dir(None, false, "/exe", false, false), "/exe");
}
