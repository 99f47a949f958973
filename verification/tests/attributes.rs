use quota::{
    fsgetxattr_code, fssetxattr_code, fsxattr_get, fsxattr_get_reply, fsxattr_requests,
    fsxattr_set, fsxattr_set_reply, project_attributes, set_project_attributes,
    set_project_values, Errno, Fsxattr, IoctlDirection, IoctlLayout, ProjectId, SyscallReturn,
    FS_XFLAG_PROJINHERIT,
};

const SUCCESS: SyscallReturn = SyscallReturn { value: 0, errno: 0 };

#[test]
fn fsxattr_requests_match_ioctl_macros() {
    let requests = fsxattr_requests();
    assert_eq!(
        requests.fs_ioc_fsgetxattr,
        requests.layout.request_code(IoctlDirection::Read, b'X', 31, 28)
    );
    assert_eq!(
        requests.fs_ioc_fssetxattr,
        requests.layout.request_code(IoctlDirection::Write, b'X', 32, 28)
    );
}

#[test]
fn fsxattr_requests_use_sparc64_legacy_encoding() {
    assert_eq!(fsgetxattr_code(IoctlLayout::Legacy) as u64, 0x401c_581f);
    assert_eq!(fssetxattr_code(IoctlLayout::Legacy) as u64, 0x801c_5820);
}

#[test]
fn fsxattr_requests_in_the_generic_encoding() {
    assert_eq!(fsgetxattr_code(IoctlLayout::Generic), 0x801c_581f);
    assert_eq!(fssetxattr_code(IoctlLayout::Generic), 0x401c_5820);
}

#[test]
fn both_requests_are_in_the_layout_of_the_machine() {
    let requests = fsxattr_requests();
    assert_eq!(requests.fs_ioc_fsgetxattr, fsgetxattr_code(requests.layout));
    assert_eq!(requests.fs_ioc_fssetxattr, fssetxattr_code(requests.layout));
    let flags_request = libc::_IOR::<[u8; 8]>(b'f' as u32, 1) as u32;
    assert_eq!(
        flags_request,
        requests.layout.request_code(IoctlDirection::Read, b'f', 1, 8)
    );
}

#[test]
fn request_codes_pack_their_largest_parts() {
    assert_eq!(
        IoctlLayout::Generic.request_code(IoctlDirection::Read, 0xff, 0xff, 0x3fff),
        0xbfff_ffff
    );
    assert_eq!(
        IoctlLayout::Legacy.request_code(IoctlDirection::Write, 0xff, 0xff, 0x1fff),
        0x9fff_ffff
    );
    assert_eq!(
        IoctlLayout::Legacy.request_code(IoctlDirection::Read, b'f', 1, 8),
        0x4008_6601
    );
}

#[test]
fn setting_project_values_preserves_other_fsxattr_fields() {
    let mut attributes = Fsxattr {
        fsx_xflags: 0x40,
        fsx_extsize: 10,
        fsx_nextents: 11,
        fsx_projid: 12,
        fsx_cowextsize: 13,
        fsx_pad: [14; 8],
    };
    set_project_values(&mut attributes, ProjectId::new(42).unwrap(), true);
    assert_eq!(attributes.fsx_projid, 42);
    assert_eq!(attributes.fsx_xflags, 0x40 | FS_XFLAG_PROJINHERIT);
    assert_eq!(attributes.fsx_extsize, 10);
    assert_eq!(attributes.fsx_nextents, 11);
    assert_eq!(attributes.fsx_cowextsize, 13);
    assert_eq!(attributes.fsx_pad, [14; 8]);
    set_project_values(&mut attributes, ProjectId::new(42).unwrap(), false);
    assert_eq!(attributes.fsx_xflags, 0x40);
}

#[test]
fn reading_starts_from_zeros() {
    let call = fsxattr_get(fsxattr_requests());
    assert_eq!(call.request, fsxattr_requests().fs_ioc_fsgetxattr);
    assert_eq!(
        call.attributes,
        Fsxattr {
            fsx_xflags: 0,
            fsx_extsize: 0,
            fsx_nextents: 0,
            fsx_projid: 0,
            fsx_cowextsize: 0,
            fsx_pad: [0; 8],
        }
    );
}

#[test]
fn replies_carry_the_kernel_error() {
    let attributes = Fsxattr { fsx_projid: 7, ..Fsxattr::default() };
    assert_eq!(fsxattr_get_reply(SUCCESS, attributes), Ok(attributes));
    let failed = SyscallReturn { value: -1, errno: libc::ENOTTY };
    assert_eq!(
        fsxattr_get_reply(failed, attributes),
        Err(Errno::Other(libc::ENOTTY))
    );
    assert_eq!(fsxattr_set_reply(SUCCESS), Ok(()));
    assert_eq!(fsxattr_set_reply(failed), Err(Errno::Other(libc::ENOTTY)));
}

#[test]
fn attributes_are_read_from_the_inode() {
    let attributes = Fsxattr {
        fsx_xflags: 0x40 | FS_XFLAG_PROJINHERIT,
        fsx_projid: 42,
        ..Fsxattr::default()
    };
    let read = project_attributes(Ok(attributes)).unwrap();
    assert_eq!(read.project_id().as_u32(), 42);
    assert!(read.project_inherit());
    let plain = project_attributes(Ok(Fsxattr { fsx_xflags: 0x40, ..attributes })).unwrap();
    assert!(!plain.project_inherit());
    let unusable = Fsxattr { fsx_projid: 0x8000_0000, ..attributes };
    assert_eq!(project_attributes(Ok(unusable)), Err(Errno::EINVAL));
    let unsupported = Errno::Other(libc::EOPNOTSUPP);
    assert_eq!(project_attributes(Err(unsupported)), Err(unsupported));
}

#[test]
fn project_reads_back_after_it_is_set() {
    let requests = fsxattr_requests();
    let before = Fsxattr { fsx_xflags: 0x8000_0001, fsx_projid: 3, ..Fsxattr::default() };
    let id = ProjectId::new(1000).unwrap();
    let call = set_project_attributes(requests, Ok(before), id, true).unwrap();
    assert_eq!(call.request, fsxattr_requests().fs_ioc_fssetxattr);
    assert_eq!(call, fsxattr_set(requests, &call.attributes));
    let read = project_attributes(Ok(call.attributes)).unwrap();
    assert_eq!(read.project_id(), id);
    assert!(read.project_inherit());
    assert_eq!(call.attributes.fsx_xflags, 0x8000_0201);

    let again = set_project_attributes(requests, Ok(call.attributes), id, false).unwrap();
    assert_eq!(again.attributes.fsx_xflags, 0x8000_0001);
    let direct = set_project_attributes(requests, Ok(before), id, false).unwrap();
    assert_eq!(again, direct);
}

#[test]
fn nothing_is_written_when_reading_fails() {
    let requests = fsxattr_requests();
    let id = ProjectId::new(1).unwrap();
    let denied = Errno::Other(libc::EACCES);
    assert_eq!(set_project_attributes(requests, Err(denied), id, true), Err(denied));
}
