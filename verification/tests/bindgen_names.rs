use libbtrfs::bindgen_names::{ends_with, starts_with, Callbacks, CliAction, Config, IntKind};

#[test]
fn helper_constants_lose_their_prefix() {
    let c = Callbacks;
    assert_eq!(
        c.generated_name_override(b"RUST_CONST_HELPER_BTRFS_IOC_SEND"),
        Some(b"BTRFS_IOC_SEND".to_vec())
    );
    assert_eq!(c.generated_name_override(b"BTRFS_IOC_SEND"), None);
}

#[test]
fn volume_argument_unions_are_named() {
    let c = Callbacks;
    assert_eq!(
        c.item_name(b"btrfs_ioctl_vol_args_v2__bindgen_ty_2"),
        Some(b"vol_args_v2_volume".to_vec())
    );
    assert_eq!(
        c.item_name(b"btrfs_ioctl_vol_args_v2__bindgen_ty_1"),
        Some(b"vol_args_v2_qgroup".to_vec())
    );
    assert_eq!(
        c.item_name(b"btrfs_ioctl_vol_args_v2__bindgen_ty_1__bindgen_ty_1"),
        Some(b"vol_args_v2_qgroup_opts".to_vec())
    );
    assert_eq!(c.item_name(b"btrfs_ioctl_vol_args_v2"), None);
    assert_eq!(c.item_name(b"btrfs_ioctl_search_key"), None);
}

#[test]
fn macro_constants_are_typed() {
    let c = Callbacks;
    assert_eq!(c.int_macro(b"BTRFS_VOL_NAME_MAX", 255), Some(IntKind::Usize));
    assert_eq!(c.int_macro(b"BTRFS_UUID_SIZE", 16), Some(IntKind::Usize));
    assert_eq!(c.int_macro(b"BTRFS_CSUM_SIZE", 32), None);
    assert_eq!(c.int_macro(b"BTRFS_ROOT_ITEM_KEY", 132), None);
    assert_eq!(c.int_macro(b"BTRFS_SUBVOL_SYNC_WAIT_FOR_ONE", 0), None);
    assert_eq!(c.int_macro(b"BTRFS_ENCODED_IO_COMPRESSION_ZLIB", 1), None);
    assert_eq!(c.int_macro(b"BTRFS_FT_DIR", 2), Some(IntKind::U8));
    assert_eq!(c.int_macro(b"BTRFS_SUBVOL_RDONLY", 2), Some(IntKind::U64));
}

#[test]
fn prefixes_and_suffixes() {
    assert!(starts_with(b"abc", b"ab"));
    assert!(!starts_with(b"abc", b"bc"));
    assert!(ends_with(b"abc", b"bc"));
    assert!(!ends_with(b"ab", b"abc"));
}

fn args(v: &[&str]) -> Vec<Vec<u8>> {
    v.iter().map(|s| s.as_bytes().to_vec()).collect()
}

#[test]
fn command_line_options() {
    assert_eq!(Config::parse_cli(&args(&["gen"])), CliAction::Run(Config { force: false }));
    assert_eq!(Config::parse_cli(&args(&["gen", "-f"])), CliAction::Run(Config { force: true }));
    assert_eq!(Config::parse_cli(&args(&["gen", "--force"])), CliAction::Run(Config { force: true }));
    assert_eq!(Config::parse_cli(&args(&["gen", "--help", "-x"])), CliAction::Help);
    assert_eq!(Config::parse_cli(&args(&["gen", "-f", "-x"])), CliAction::Invalid(2));
}
