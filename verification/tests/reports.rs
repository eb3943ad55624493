//! What check, measure and compare print, and how they end.
use instar::check::{
    check_check, check_devices, finish_check, harvest_check, plan_check, repair_warning,
    shows_check_result, write_check_config, CheckArgs, CheckDevices, CheckExit, RepairMode,
};
use instar::compare::{
    check_compare_devices, finish_compare, harvest_compare, plan_compare, resolve_luks_secret,
    resolve_qcow2_secret, shows_compare_result, write_compare_config, write_two_chains, CompareArgs,
};
use instar::chain::{create_single_image_chain, ChainImage};
use instar::formats::ImageFormat;
use instar::limits::{check_sector_size, is_power_of_two, power_exponent};
use instar::message::{CheckResultMessage, CompareResultMessage, MeasureResultMessage};
use instar::result_report::{
    check_report, compare_report, finish_measure, measure_report, MeasureOutput,
};
use instar::settings::{validation, FileError};

fn t(s: &str) -> String {
    s.to_string()
}

fn sound() -> CheckResultMessage {
    CheckResultMessage {
        format: t("qcow2"),
        total_errors: 0,
        corruptions: 0,
        leaks: 0,
        refcount_errors: 0,
        chain_errors: 0,
        subcluster_errors: 0,
        clusters_checked: 0,
        clusters_allocated: 0,
        fragmentation: 0,
        image_end_offset: 0,
        repaired_leaks: 0,
        repaired_refcounts: 0,
        repaired_corruptions: 0,
        flags: 1,
    }
}

fn check_args() -> CheckArgs {
    CheckArgs {
        input: t("/i"),
        sector_size: 65536,
        output: t("human"),
        quiet: false,
        unsafe_quirks: false,
        chain: false,
        repair: None,
    }
}

#[test]
fn a_sound_image_has_no_errors() {
    let m = sound();
    assert_eq!(check_report(&m, "/i", "human", false), "No errors were found on the image.\n");
    let mut stats = sound();
    stats.clusters_checked = 3;
    stats.clusters_allocated = 1;
    stats.fragmentation = 5;
    stats.image_end_offset = 4096;
    assert_eq!(
        check_report(&stats, "/i", "human", false),
        format!(
            "No errors were found on the image.\n1/3 = {:.2}% allocated, {:.2}% fragmented\n\
             Image end offset: 4096\n",
            (1.0 / 3.0) * 100.0,
            5.0
        )
    );
}

#[test]
fn damage_is_reported_class_by_class() {
    let mut m = sound();
    m.flags = 0x100;
    m.total_errors = 7;
    m.corruptions = 4;
    m.leaks = 3;
    m.chain_errors = 2;
    m.subcluster_errors = 1;
    m.repaired_leaks = 5;
    assert_eq!(
        check_report(&m, "/i", "human", false),
        "7 errors were found on the image.\n\
         Data may be corrupted, or the image has been written incompletely.\n\
         3 leaked clusters were found on the image.\n\
         This means waste of disk space, but no harm to data.\n\
         2 backing chain error(s) were found.\n\
         1 subcluster bitmap error(s) were found.\n\
         Repaired 5 leaked cluster(s), 0 refcount correction(s), 0 corruption(s).\n\
         Repair did not complete; some issues remain (re-run or use qemu-img).\n"
    );
    m.flags = 0x40;
    assert_eq!(
        check_report(&m, "/i", "human", false),
        "This image format (qcow2) does not support checks\n"
    );
}

#[test]
fn json_keeps_its_keys_unless_quirks_drop_them() {
    let mut m = sound();
    m.flags = 0x19;
    m.leaks = 2;
    m.repaired_refcounts = 9;
    let text = check_report(&m, "/a\"b", "json", false);
    assert_eq!(
        text,
        "{\n    \"filename\": \"/a\\\"b\",\n    \"format\": \"qcow2\",\n    \"check-errors\": 0,\n    \
         \"corruptions\": 0,\n    \"leaks\": 2,\n    \"refcount-errors\": 0,\n    \
         \"image-end-offset\": 0,\n    \"total-clusters\": 0,\n    \"allocated-clusters\": 0,\n    \
         \"fragmented-clusters\": 0,\n    \"dirty\": true,\n    \"corrupt\": true,\n    \
         \"chain-errors\": 0,\n    \"subcluster-errors\": 0,\n    \"repaired-refcounts\": 9,\n    \
         \"repair-incomplete\": false\n}\n"
    );
    let quirky = check_report(&m, "/i", "json", true);
    assert!(!quirky.contains("corruptions\""));
    assert!(quirky.contains("\"leaks\": 2"));
    assert!(!quirky.contains("refcount-errors"));
}

#[test]
fn a_check_ends_with_the_code_of_its_worst_finding() {
    let exit = |corruptions, refcount_errors, chain_errors, leaks, not_supported| {
        Some(CheckExit { corruptions, refcount_errors, chain_errors, leaks, not_supported })
    };
    assert_eq!(finish_check(exit(0, 0, 0, 0, false)).unwrap(), 0);
    assert_eq!(finish_check(exit(1, 0, 0, 9, false)).unwrap(), 2);
    assert_eq!(finish_check(exit(0, 1, 0, 0, false)).unwrap(), 2);
    assert_eq!(finish_check(exit(0, 0, 1, 0, false)).unwrap(), 2);
    assert_eq!(finish_check(exit(0, 0, 0, 1, false)).unwrap(), 3);
    assert_eq!(finish_check(exit(1, 1, 1, 1, true)).unwrap(), 63);
    assert_eq!(finish_check(None).unwrap_err(), "image check failed: no result received");
    let mut m = sound();
    m.flags = 0x40;
    m.leaks = 6;
    let harvested = harvest_check(&m);
    assert!(harvested.not_supported);
    assert_eq!(harvested.leaks, 6);
}

#[test]
fn a_check_request_is_held_to_its_rules() {
    assert!(check_check(&check_args()).is_ok());
    let mut args = check_args();
    args.sector_size = 1000;
    assert_eq!(
        check_check(&args).unwrap_err(),
        "sector size must be a power of 2, 512 to 65536 (got 1000)"
    );
    let mut args = check_args();
    args.chain = true;
    args.repair = Some(RepairMode::Leaks);
    assert_eq!(
        check_check(&args).unwrap_err(),
        "check: --repair cannot be combined with --chain (repair operates on a single image)"
    );
    assert_eq!(repair_warning(&args), None);
    args.repair = Some(RepairMode::All);
    assert_eq!(
        repair_warning(&args),
        Some("warning: --repair=all rewrites image metadata in place; back up valuable images first\n")
    );
}

#[test]
fn only_a_repair_opens_an_image_for_writing() {
    let mut args = check_args();
    assert!(matches!(check_devices(&args, false), CheckDevices::ReadOnly));
    assert!(matches!(check_devices(&args, true), CheckDevices::Chain));
    args.repair = Some(RepairMode::All);
    assert!(matches!(check_devices(&args, false), CheckDevices::Writable));
    assert!(matches!(check_devices(&args, true), CheckDevices::Chain));
    args.quiet = true;
    args.unsafe_quirks = true;
    let config = plan_check(&args, true);
    assert_eq!(config.flags, 0x8000_0017);
    let bytes = write_check_config(&config);
    assert_eq!(&bytes[..4], &0x43484543u32.to_le_bytes());
    assert_eq!(&bytes[4..8], &0x8000_0017u32.to_le_bytes());
    args.repair = Some(RepairMode::Leaks);
    args.chain = true;
    assert_eq!(plan_check(&args, false).flags, 0xf);
    assert!(!shows_check_result(&args, &sound()));
    let mut damaged = sound();
    damaged.chain_errors = 1;
    assert!(shows_check_result(&args, &damaged));
    args.quiet = false;
    assert!(shows_check_result(&args, &sound()));
}

#[test]
fn a_measurement_is_printed_or_complained_about() {
    let measured = |error| MeasureResultMessage {
        target_format: t("qcow2"),
        required: 10,
        fully_allocated: 20,
        resolved_unit_size: 0,
        error,
    };
    match measure_report(&measured(0), "human", true) {
        MeasureOutput::Report(text) => {
            assert_eq!(text, "required size: 10\nfully allocated size: 20\nbitmaps size: 0\n")
        }
        MeasureOutput::Complaint(text) => panic!("{}", text),
    }
    match measure_report(&measured(0), "json", true) {
        MeasureOutput::Report(text) => assert_eq!(
            text,
            "{\n    \"bitmaps\": 0,\n    \"required\": 10,\n    \"fully-allocated\": 20\n}\n"
        ),
        MeasureOutput::Complaint(text) => panic!("{}", text),
    }
    let complaints = [
        (1, "measure: overflow computing target size"),
        (2, "measure: invalid option for target format"),
        (3, "measure: source image is unsupported format"),
        (9, "measure: unknown error"),
    ];
    for (error, expected) in complaints {
        match measure_report(&measured(error), "human", false) {
            MeasureOutput::Complaint(text) => assert_eq!(text.trim_end(), expected),
            MeasureOutput::Report(text) => panic!("{}", text),
        }
        assert!(finish_measure(Some(error)).is_err());
    }
    assert!(finish_measure(Some(0)).is_ok());
    assert!(finish_measure(None).is_err());
}

fn compared(identical: bool, flags: u32) -> CompareResultMessage {
    CompareResultMessage { identical, first_mismatch_offset: 512, total_bytes_compared: 1024, flags }
}

#[test]
fn a_comparison_names_the_first_difference() {
    assert_eq!(compare_report(&compared(true, 0), "human", false), "Images are identical.\n");
    assert_eq!(
        compare_report(&compared(false, 0), "human", true),
        "Content mismatch at offset 512!\n"
    );
    assert_eq!(
        compare_report(&compared(true, 1), "human", false),
        "Warning: Image size mismatch!\nImages are identical.\n"
    );
    assert_eq!(
        compare_report(&compared(true, 1), "human", true),
        "Strict mode: Image size mismatch!\n"
    );
    assert_eq!(
        compare_report(&compared(false, 1), "json", false),
        "{\n    \"identical\": false,\n    \"first-mismatch-offset\": 512,\n    \
         \"total-bytes-compared\": 1024,\n    \"size-mismatch\": true\n}\n"
    );
}

#[test]
fn strict_comparisons_are_stricter() {
    assert!(harvest_compare(&compared(true, 1), false));
    assert!(!harvest_compare(&compared(true, 1), true));
    assert!(harvest_compare(&compared(true, 0), true));
    assert!(!harvest_compare(&compared(false, 0), false));
    assert_eq!(finish_compare(Some(true)).unwrap(), 0);
    assert_eq!(finish_compare(Some(false)).unwrap(), 1);
    assert_eq!(
        finish_compare(None).unwrap_err(),
        "compare operation failed: no result received"
    );
}

fn compare_args() -> CompareArgs {
    CompareArgs {
        image1: t("/1"),
        image2: t("/2"),
        sector_size: 65536,
        output: t("human"),
        strict: false,
        quiet: false,
        qcow2_password: None,
        qcow2_password_file: None,
        luks_passphrase: None,
        luks_passphrase_file: None,
    }
}

fn images(count: usize) -> Vec<ChainImage> {
    let mut all = Vec::new();
    for _ in 0..count {
        all.extend(create_single_image_chain("/i", ImageFormat::Raw, 1, "raw", 5, 6, 0, 0));
    }
    all
}

#[test]
fn a_comparison_is_planned_over_two_chains() {
    assert_eq!(check_compare_devices(&images(3), &images(4)).unwrap(), 7);
    assert_eq!(
        check_compare_devices(&images(9), &images(8)).unwrap_err(),
        "combined chain depth 17 (image1: 9 + image2: 8) exceeds maximum of 16 devices"
    );
    let mut args = compare_args();
    args.strict = true;
    args.quiet = true;
    let config =
        plan_compare(&args, true, &images(2), &images(1), &Some(t("pw")), &Some(t("other"))).unwrap();
    assert_eq!(config.flags, 0x8000_0003);
    let bytes = write_compare_config(&config);
    assert_eq!(&bytes[..4], &0x434D5052u32.to_le_bytes());
    assert_eq!(&bytes[8..12], &2u32.to_le_bytes());
    assert_eq!(&bytes[12..16], &1u32.to_le_bytes());
    assert_eq!(&bytes[16..20], &2u32.to_le_bytes());
    assert_eq!(&bytes[24..27], b"pw\0");
    let long = Some("x".repeat(257));
    assert_eq!(
        plan_compare(&args, true, &images(1), &images(1), &None, &long).unwrap_err(),
        "passphrase too long (max 256 bytes)"
    );
    let two = write_two_chains(&images(2), &images(1));
    assert_eq!(&two[4..8], &3u32.to_le_bytes());
    assert_eq!(shows_compare_result(&args, &compared(true, 0)), false);
    assert!(shows_compare_result(&args, &compared(false, 0)));
}

#[test]
fn secrets_come_from_the_command_line_or_a_file() {
    let content = Ok(t("secret\n\n"));
    assert_eq!(
        resolve_qcow2_secret(&Some(t("pw")), &None, &content).unwrap(),
        Some(t("pw"))
    );
    assert_eq!(
        resolve_qcow2_secret(&None, &Some(t("/f")), &content).unwrap(),
        Some(t("secret\n"))
    );
    assert_eq!(resolve_luks_secret(&None, &Some(t("/f")), &content).unwrap(), Some(t("secret")));
    assert_eq!(resolve_luks_secret(&None, &None, &content).unwrap(), None);
    let missing: Result<String, String> = Err(t("gone"));
    assert_eq!(resolve_qcow2_secret(&None, &Some(t("/f")), &missing).unwrap_err(), "gone");
    assert_eq!(
        resolve_luks_secret(&None, &Some(t("/f")), &missing).unwrap_err(),
        "failed to read LUKS passphrase file '/f': gone"
    );
}

#[test]
fn sector_sizes_are_powers_of_two() {
    assert!(is_power_of_two(1));
    assert!(is_power_of_two(1 << 63));
    assert!(!is_power_of_two(0));
    assert!(!is_power_of_two(3));
    assert_eq!(power_exponent(65536), 16);
    assert!(check_sector_size("", 512).is_ok());
    assert!(check_sector_size("", 256).is_err());
    assert!(check_sector_size("", 131072).is_err());
    assert_eq!(
        check_sector_size("input ", 7).unwrap_err(),
        "input sector size must be a power of 2, 512 to 65536 (got 7)"
    );
}

#[test]
fn settings_are_valid_or_listed() {
    let fine = validation(&Vec::new());
    assert_eq!(fine.text, "All configuration files are valid.\n");
    assert_eq!(fine.failure, None);
    let broken = validation(&vec![FileError { path: t("/c"), error: t("bad") }]);
    assert_eq!(broken.text, "Configuration errors found:\n  /c: bad\n");
    assert_eq!(broken.failure, Some("configuration validation failed"));
}
