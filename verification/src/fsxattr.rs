//! The attributes of an inode that carry its project.

use crate::abi::request_codes;
use crate::errno::{Errno, SyscallReturn};
use crate::ioctl::{IoctlDirection, IoctlLayout};
use crate::project::{ProjectAttributes, ProjectId};
use vstd::prelude::*;

verus! {

/// The extended attributes of an inode, as `FS_IOC_FSGETXATTR` reports them.
#[derive(Clone, Copy, Debug, PartialEq, Eq)]
pub struct Fsxattr {
    /// Flags of the inode.
    pub fsx_xflags: u32,
    /// Extent size.
    pub fsx_extsize: u32,
    /// Number of extents.
    pub fsx_nextents: u32,
    /// Project identifier.
    pub fsx_projid: u32,
    /// Copy-on-write extent size.
    pub fsx_cowextsize: u32,
    /// Unused.
    pub fsx_pad: [u8; 8],
}

/// The flag of an inode that hands its project identifier on to new children.
pub const FS_XFLAG_PROJINHERIT: u32 = 0x0000_0200;

/// How many bytes the kernel's attributes take: five words of 32 bits, and 8 bytes unused.
pub const FSXATTR_BYTES: usize = 28;

/// The group of the two requests, the letter `X`.
pub const FSXATTR_GROUP: u8 = 0x58;

/// The number of the request that reads the attributes.
pub const FSGETXATTR_NUMBER: u8 = 31;

/// The number of the request that writes the attributes.
pub const FSSETXATTR_NUMBER: u8 = 32;

/// The code of the request that reads the attributes, in a layout.
pub open spec fn get_code(layout: IoctlLayout) -> nat {
    layout.code(
        IoctlDirection::Read,
        FSXATTR_GROUP as nat,
        FSGETXATTR_NUMBER as nat,
        FSXATTR_BYTES as nat,
    )
}

/// The code of the request that writes the attributes, in a layout.
pub open spec fn set_code(layout: IoctlLayout) -> nat {
    layout.code(
        IoctlDirection::Write,
        FSXATTR_GROUP as nat,
        FSSETXATTR_NUMBER as nat,
        FSXATTR_BYTES as nat,
    )
}

/// `FS_IOC_FSGETXATTR`, as architectures with that layout encode it.
pub fn fsgetxattr_code(layout: IoctlLayout) -> (r: u32)
    ensures
        r == get_code(layout),
{
    layout.request_code(
        IoctlDirection::Read,
        FSXATTR_GROUP,
        FSGETXATTR_NUMBER,
        FSXATTR_BYTES as u16,
    )
}

/// `FS_IOC_FSSETXATTR`, as architectures with that layout encode it.
pub fn fssetxattr_code(layout: IoctlLayout) -> (r: u32)
    ensures
        r == set_code(layout),
{
    layout.request_code(
        IoctlDirection::Write,
        FSXATTR_GROUP,
        FSSETXATTR_NUMBER,
        FSXATTR_BYTES as u16,
    )
}

/// The two requests as an architecture encodes them, and the layout that it uses.
#[derive(Clone, Copy, Debug, PartialEq, Eq, Structural, Hash)]
pub struct FsxattrRequests {
    /// The layout of both codes.
    pub layout: IoctlLayout,
    /// `FS_IOC_FSGETXATTR`.
    pub fs_ioc_fsgetxattr: u32,
    /// `FS_IOC_FSSETXATTR`.
    pub fs_ioc_fssetxattr: u32,
}

/// The two requests as the machine's architecture encodes them.
///
/// Which layout that is depends on the machine; it is the same one for both requests.
pub fn fsxattr_requests() -> (r: FsxattrRequests)
    ensures
        r.fs_ioc_fsgetxattr == get_code(r.layout),
        r.fs_ioc_fssetxattr == set_code(r.layout),
{
    let codes = request_codes::<FSXATTR_BYTES>(
        FSXATTR_GROUP as u32,
        FSGETXATTR_NUMBER as u32,
        FSSETXATTR_NUMBER as u32,
    );
    let layout = if codes.read == fsgetxattr_code(IoctlLayout::Generic) {
        IoctlLayout::Generic
    } else {
        IoctlLayout::Legacy
    };
    FsxattrRequests { layout, fs_ioc_fsgetxattr: codes.read, fs_ioc_fssetxattr: codes.write }
}

/// An `ioctl` to make on an inode: its request code, and the attributes that its argument
/// holds.
#[derive(Clone, Copy, Debug, PartialEq, Eq)]
pub struct FsxattrCall {
    pub request: u32,
    pub attributes: Fsxattr,
}

impl Fsxattr {
    /// Is every field 0?
    pub open spec fn is_zero(self) -> bool {
        &&& self.fsx_xflags == 0
        &&& self.fsx_extsize == 0
        &&& self.fsx_nextents == 0
        &&& self.fsx_projid == 0
        &&& self.fsx_cowextsize == 0
        &&& self.fsx_pad@ == Seq::new(8, |i: int| 0u8)
    }

    /// The attributes with this project, and all else as it was.
    pub open spec fn with_project(self, id: u32, inherit: bool) -> Fsxattr {
        Fsxattr {
            fsx_projid: id,
            fsx_xflags: if inherit {
                self.fsx_xflags | FS_XFLAG_PROJINHERIT
            } else {
                self.fsx_xflags & !FS_XFLAG_PROJINHERIT
            },
            ..self
        }
    }
}

impl Default for Fsxattr {
    /// Attributes in which every field is 0.
    fn default() -> (r: Self)
        ensures
            r.is_zero(),
    {
        let fsx_pad: [u8; 8] = [0; 8];
        assert(fsx_pad@ =~= Seq::new(8, |i: int| 0u8));
        Fsxattr {
            fsx_xflags: 0,
            fsx_extsize: 0,
            fsx_nextents: 0,
            fsx_projid: 0,
            fsx_cowextsize: 0,
            fsx_pad,
        }
    }
}

/// The call that reads an inode's attributes, into an argument of zeros.
pub fn fsxattr_get(requests: FsxattrRequests) -> (r: FsxattrCall)
    ensures
        r.request == requests.fs_ioc_fsgetxattr,
        r.attributes.is_zero(),
{
    FsxattrCall { request: requests.fs_ioc_fsgetxattr, attributes: Fsxattr::default() }
}

/// The attributes read, or the kernel's error.
pub fn fsxattr_get_reply(ret: SyscallReturn, attributes: Fsxattr) -> (r: Result<Fsxattr, Errno>)
    ensures
        r == (match crate::errno::syscall_done(ret) {
            Ok(_) => Ok::<Fsxattr, Errno>(attributes),
            Err(e) => Err::<Fsxattr, Errno>(e),
        }),
{
    match Errno::result(ret) {
        Ok(_) => Ok(attributes),
        Err(e) => Err(e),
    }
}

/// The call that writes an inode's attributes.
pub fn fsxattr_set(requests: FsxattrRequests, attributes: &Fsxattr) -> (r: FsxattrCall)
    ensures
        r.request == requests.fs_ioc_fssetxattr,
        r.attributes == *attributes,
{
    FsxattrCall { request: requests.fs_ioc_fssetxattr, attributes: *attributes }
}

/// Whether the attributes were written, or the kernel's error.
pub fn fsxattr_set_reply(ret: SyscallReturn) -> (r: Result<(), Errno>)
    ensures
        r == crate::errno::syscall_done(ret),
{
    match Errno::result(ret) {
        Ok(_) => Ok(()),
        Err(e) => Err(e),
    }
}

/// Put a project identifier and inheritance bit into an inode's attributes.
pub fn set_project_values(attributes: &mut Fsxattr, project_id: ProjectId, project_inherit: bool)
    ensures
        *final(attributes) == old(attributes).with_project(project_id@, project_inherit),
{
    attributes.fsx_projid = project_id.as_u32();
    if project_inherit {
        attributes.fsx_xflags |= FS_XFLAG_PROJINHERIT;
    } else {
        attributes.fsx_xflags &= !FS_XFLAG_PROJINHERIT;
    }
}

/// Assign a project identifier and inheritance bit while preserving all other
/// filesystem project attributes.
///
/// `read` is what reading the attributes by `requests` gave. The result is the call that
/// writes them back, changed; it is made on the same inode, and its reply is the outcome.
pub fn set_project_attributes(
    requests: FsxattrRequests,
    read: Result<Fsxattr, Errno>,
    project_id: ProjectId,
    project_inherit: bool,
) -> (r: Result<FsxattrCall, Errno>)
    ensures
        r == (match read {
            Ok(attributes) => Ok::<FsxattrCall, Errno>(
                FsxattrCall {
                    request: requests.fs_ioc_fssetxattr,
                    attributes: attributes.with_project(project_id@, project_inherit),
                },
            ),
            Err(e) => Err::<FsxattrCall, Errno>(e),
        }),
{
    match read {
        Ok(read_attributes) => {
            let mut attributes = read_attributes;
            set_project_values(&mut attributes, project_id, project_inherit);
            Ok(fsxattr_set(requests, &attributes))
        },
        Err(e) => Err(e),
    }
}

/// Attributes that were given a project are read as having that project.
///
/// `read` is what `project_attributes` makes of the attributes.
pub proof fn lemma_project_reads_back(
    attributes: Fsxattr,
    id: ProjectId,
    inherit: bool,
    read: Result<ProjectAttributes, Errno>,
)
    requires
        crate::project::is_project_id(id@),
        crate::errno::viewed(read) == crate::project::attributes_of(
            attributes.with_project(id@, inherit),
        ),
    ensures
        read is Ok,
        read->Ok_0@.project_id == id@,
        read->Ok_0@.project_inherit == inherit,
        forall|read_id: ProjectId| #[trigger]
            read_id@ == read->Ok_0@.project_id ==> read_id == id,
{
    let xflags = attributes.fsx_xflags;
    assert((xflags | 0x200) & 0x200 != 0) by (bit_vector);
    assert((xflags & !0x200) & 0x200 == 0) by (bit_vector);
    assert forall|read_id: ProjectId| #[trigger]
        read_id@ == read->Ok_0@.project_id implies read_id == id by {
        crate::project::lemma_project_id_is_its_number(read_id, id);
    }
}

/// Giving attributes a project changes the project identifier and the inheritance flag,
/// and no other field or flag.
pub proof fn lemma_project_changes_nothing_else(attributes: Fsxattr, id: u32, inherit: bool)
    ensures
        ({
            let changed = attributes.with_project(id, inherit);
            &&& changed.fsx_xflags & !FS_XFLAG_PROJINHERIT == attributes.fsx_xflags
                & !FS_XFLAG_PROJINHERIT
            &&& changed.fsx_extsize == attributes.fsx_extsize
            &&& changed.fsx_nextents == attributes.fsx_nextents
            &&& changed.fsx_cowextsize == attributes.fsx_cowextsize
            &&& changed.fsx_pad == attributes.fsx_pad
        }),
{
    let xflags = attributes.fsx_xflags;
    assert((xflags | 0x200) & !0x200 == xflags & !0x200) by (bit_vector);
    assert((xflags & !0x200) & !0x200 == xflags & !0x200) by (bit_vector);
}

/// Of two projects given one after the other, only the last one counts.
pub proof fn lemma_last_project_wins(
    attributes: Fsxattr,
    id1: u32,
    inherit1: bool,
    id2: u32,
    inherit2: bool,
)
    ensures
        attributes.with_project(id1, inherit1).with_project(id2, inherit2)
            == attributes.with_project(id2, inherit2),
{
    let xflags = attributes.fsx_xflags;
    assert((xflags | 0x200) | 0x200 == xflags | 0x200) by (bit_vector);
    assert((xflags | 0x200) & !0x200 == xflags & !0x200) by (bit_vector);
    assert((xflags & !0x200) | 0x200 == xflags | 0x200) by (bit_vector);
    assert((xflags & !0x200) & !0x200 == xflags & !0x200) by (bit_vector);
}

/// Giving attributes the project that they have already changes nothing.
pub proof fn lemma_same_project_changes_nothing(attributes: Fsxattr)
    ensures
        attributes.with_project(
            attributes.fsx_projid,
            attributes.fsx_xflags & FS_XFLAG_PROJINHERIT != 0,
        ) == attributes,
{
    let xflags = attributes.fsx_xflags;
    assert(xflags & 0x200 != 0 ==> xflags | 0x200 == xflags) by (bit_vector);
    assert(xflags & 0x200 == 0 ==> xflags & !0x200 == xflags) by (bit_vector);
}

/// No code is both that of the reading and that of the writing request, not even in
/// different layouts.
pub proof fn lemma_requests_differ(layout1: IoctlLayout, layout2: IoctlLayout)
    ensures
        get_code(layout1) != set_code(layout2),
{
}

/// The code of either request tells the layout that it is in.
pub proof fn lemma_request_tells_its_layout(layout1: IoctlLayout, layout2: IoctlLayout)
    requires
        get_code(layout1) == get_code(layout2) || set_code(layout1) == set_code(layout2),
    ensures
        layout1 == layout2,
{
}

} // verus!
