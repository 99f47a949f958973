//! Laws of an inode's project attributes and of the requests that carry them.

use crate::errno::{Errno, SyscallReturn};
use crate::fsxattr::{
    fsgetxattr_code, fssetxattr_code, fsxattr_get, fsxattr_get_reply, fsxattr_requests,
    fsxattr_set, fsxattr_set_reply, set_project_attributes, set_project_values, Fsxattr,
    FsxattrCall, FsxattrRequests,
};
use crate::ioctl::{IoctlDirection, IoctlLayout};
use crate::project::{project_attributes, ProjectAttributes, ProjectId};
use vstd::prelude::*;

verus! {

/// From the lowest bit up, a request code holds the number in 8 bits, the group in 8, the
/// size in 14 or 13, and the direction in the rest. Reading is direction 2; writing is 1 in
/// the generic layout, and 4 in the legacy one. Every size that fits its bits is accepted.
pub proof fn law_request_code(
    layout: IoctlLayout,
    direction: IoctlDirection,
    ty: u8,
    nr: u8,
    size: u16,
    code: u32,
)
    requires
        size <= (match layout {
            IoctlLayout::Generic => 0x3fffu16,
            IoctlLayout::Legacy => 0x1fffu16,
        }),
        call_ensures(IoctlLayout::request_code, (layout, direction, ty, nr, size), code),
    ensures
        call_requires(IoctlLayout::request_code, (layout, direction, ty, nr, size)),
        code % 0x100 == nr,
        (code / 0x100) % 0x100 == ty,
        layout is Generic ==> {
            &&& (code / 0x1_0000) % 0x4000 == size
            &&& direction is Read ==> code / 0x4000_0000 == 2
            &&& direction is Write ==> code / 0x4000_0000 == 1
        },
        layout is Legacy ==> {
            &&& (code / 0x1_0000) % 0x2000 == size
            &&& direction is Read ==> code / 0x2000_0000 == 2
            &&& direction is Write ==> code / 0x2000_0000 == 4
        },
{
}

/// The code of the request that reads the attributes, in either layout.
pub proof fn law_fsgetxattr_code(layout: IoctlLayout, code: u32)
    requires
        call_ensures(fsgetxattr_code, (layout,), code),
    ensures
        call_requires(fsgetxattr_code, (layout,)),
        layout is Generic ==> code == 0x801c_581f,
        layout is Legacy ==> code == 0x401c_581f,
{
}

/// The code of the request that writes the attributes, in either layout.
pub proof fn law_fssetxattr_code(layout: IoctlLayout, code: u32)
    requires
        call_ensures(fssetxattr_code, (layout,), code),
    ensures
        call_requires(fssetxattr_code, (layout,)),
        layout is Generic ==> code == 0x401c_5820,
        layout is Legacy ==> code == 0x801c_5820,
{
}

/// The machine's two requests are those of one and the same layout, which is told.
pub proof fn law_fsxattr_requests(requests: FsxattrRequests)
    requires
        call_ensures(fsxattr_requests, (), requests),
    ensures
        call_requires(fsxattr_requests, ()),
        requests.layout is Generic ==> requests.fs_ioc_fsgetxattr == 0x801c_581f
            && requests.fs_ioc_fssetxattr == 0x401c_5820,
        requests.layout is Legacy ==> requests.fs_ioc_fsgetxattr == 0x401c_581f
            && requests.fs_ioc_fssetxattr == 0x801c_5820,
{
}

/// Fresh attributes are all zeros.
pub proof fn law_fresh_attributes(r: Fsxattr)
    requires
        call_ensures(<Fsxattr as Default>::default, (), r),
    ensures
        call_requires(<Fsxattr as Default>::default, ()),
        r.fsx_xflags == 0,
        r.fsx_extsize == 0,
        r.fsx_nextents == 0,
        r.fsx_projid == 0,
        r.fsx_cowextsize == 0,
        forall|i: int| 0 <= i < 8 ==> #[trigger] r.fsx_pad@[i] == 0,
{
}

/// Reading is asked for by the reading request, with an argument of zeros.
pub proof fn law_fsxattr_get(requests: FsxattrRequests, call: FsxattrCall)
    requires
        call_ensures(fsxattr_get, (requests,), call),
    ensures
        call_requires(fsxattr_get, (requests,)),
        call.request == requests.fs_ioc_fsgetxattr,
        call.attributes.fsx_xflags == 0,
        call.attributes.fsx_extsize == 0,
        call.attributes.fsx_nextents == 0,
        call.attributes.fsx_projid == 0,
        call.attributes.fsx_cowextsize == 0,
        forall|i: int| 0 <= i < 8 ==> #[trigger] call.attributes.fsx_pad@[i] == 0,
{
}

/// Writing is asked for by the writing request, with the attributes given.
pub proof fn law_fsxattr_set(requests: FsxattrRequests, attributes: &Fsxattr, call: FsxattrCall)
    requires
        call_ensures(fsxattr_set, (requests, attributes), call),
    ensures
        call_requires(fsxattr_set, (requests, attributes)),
        call.request == requests.fs_ioc_fssetxattr,
        call.attributes == *attributes,
{
}

/// A successful reading gives the attributes read, and a failed one the kernel's error.
pub proof fn law_fsxattr_get_reply(
    ret: SyscallReturn,
    attributes: Fsxattr,
    r: Result<Fsxattr, Errno>,
)
    requires
        call_ensures(fsxattr_get_reply, (ret, attributes), r),
    ensures
        call_requires(fsxattr_get_reply, (ret, attributes)),
        ret.value != -1 ==> r == Ok::<Fsxattr, Errno>(attributes),
        ret.value == -1 ==> r == Err::<Fsxattr, Errno>(
            if ret.errno == 22 {
                Errno::EINVAL
            } else {
                Errno::Other(ret.errno)
            },
        ),
{
}

/// A successful writing is a success, and a failed one gives the kernel's error.
pub proof fn law_fsxattr_set_reply(ret: SyscallReturn, r: Result<(), Errno>)
    requires
        call_ensures(fsxattr_set_reply, (ret,), r),
    ensures
        call_requires(fsxattr_set_reply, (ret,)),
        ret.value != -1 ==> r == Ok::<(), Errno>(()),
        ret.value == -1 ==> r == Err::<(), Errno>(
            if ret.errno == 22 {
                Errno::EINVAL
            } else {
                Errno::Other(ret.errno)
            },
        ),
{
}

proof fn lemma_inherit_flag(xflags: u32)
    ensures
        (xflags | 0x200) & 0x200 != 0,
        (xflags & !0x200u32) & 0x200 == 0,
        (xflags | 0x200) & 0xffff_fdff == xflags & 0xffff_fdff,
        (xflags & !0x200u32) & 0xffff_fdff == xflags & 0xffff_fdff,
{
    assert((xflags | 0x200) & 0x200 != 0 && (xflags & !0x200u32) & 0x200 == 0 && (xflags | 0x200)
        & 0xffff_fdff == xflags & 0xffff_fdff && (xflags & !0x200u32) & 0xffff_fdff == xflags
        & 0xffff_fdff) by (bit_vector);
}

/// Setting the project values stores the identifier, makes the inheritance flag what it is
/// asked to be, and leaves every other flag and field as it was.
pub proof fn law_set_project_values(
    attributes: &mut Fsxattr,
    project_id: ProjectId,
    inherit: bool,
    id: u32,
)
    requires
        call_ensures(set_project_values, (attributes, project_id, inherit), ()),
        call_ensures(ProjectId::as_u32, (project_id,), id),
    ensures
        call_requires(set_project_values, (attributes, project_id, inherit)),
        final(attributes).fsx_projid == id,
        final(attributes).fsx_xflags & 0x200 != 0 <==> inherit,
        final(attributes).fsx_xflags & 0xffff_fdff == old(attributes).fsx_xflags & 0xffff_fdff,
        final(attributes).fsx_extsize == old(attributes).fsx_extsize,
        final(attributes).fsx_nextents == old(attributes).fsx_nextents,
        final(attributes).fsx_cowextsize == old(attributes).fsx_cowextsize,
        final(attributes).fsx_pad == old(attributes).fsx_pad,
{
    lemma_inherit_flag(old(attributes).fsx_xflags);
}

/// Attributes that were read are written back by the writing request with the identifier and
/// the inheritance flag asked for, and all else as it was read. A failed reading gives its
/// own error, and nothing to write.
pub proof fn law_set_project_attributes(
    requests: FsxattrRequests,
    read: Result<Fsxattr, Errno>,
    project_id: ProjectId,
    inherit: bool,
    id: u32,
    r: Result<FsxattrCall, Errno>,
)
    requires
        call_ensures(set_project_attributes, (requests, read, project_id, inherit), r),
        call_ensures(ProjectId::as_u32, (project_id,), id),
    ensures
        call_requires(set_project_attributes, (requests, read, project_id, inherit)),
        read matches Err(e) ==> r == Err::<FsxattrCall, Errno>(e),
        read matches Ok(before) ==> {
            &&& r is Ok
            &&& r->Ok_0.request == requests.fs_ioc_fssetxattr
            &&& r->Ok_0.attributes.fsx_projid == id
            &&& r->Ok_0.attributes.fsx_xflags & 0x200 != 0 <==> inherit
            &&& r->Ok_0.attributes.fsx_xflags & 0xffff_fdff == before.fsx_xflags & 0xffff_fdff
            &&& r->Ok_0.attributes.fsx_extsize == before.fsx_extsize
            &&& r->Ok_0.attributes.fsx_nextents == before.fsx_nextents
            &&& r->Ok_0.attributes.fsx_cowextsize == before.fsx_cowextsize
            &&& r->Ok_0.attributes.fsx_pad == before.fsx_pad
        },
{
    if read is Ok {
        lemma_inherit_flag(read->Ok_0.fsx_xflags);
    }
}

/// The project attributes read are the inode's own identifier and the bit 9 of its flags. An
/// identifier above the largest signed 32-bit integer is invalid, and a failed reading gives
/// its own error.
pub proof fn law_project_attributes(
    read: Result<Fsxattr, Errno>,
    r: Result<ProjectAttributes, Errno>,
)
    requires
        call_ensures(project_attributes, (read,), r),
    ensures
        call_requires(project_attributes, (read,)),
        read matches Err(e) ==> r == Err::<ProjectAttributes, Errno>(e),
        read matches Ok(inode) ==> match r {
            Ok(attributes) => {
                &&& inode.fsx_projid <= 0x7fff_ffff
                &&& forall|id: ProjectId, n: u32|
                    #![trigger call_ensures(ProjectAttributes::project_id, (attributes,), id),
                        call_ensures(ProjectId::as_u32, (id,), n)]
                    call_ensures(ProjectAttributes::project_id, (attributes,), id) && call_ensures(
                        ProjectId::as_u32,
                        (id,),
                        n,
                    ) ==> n == inode.fsx_projid
                &&& forall|inherit: bool| #[trigger]
                    call_ensures(ProjectAttributes::project_inherit, (attributes,), inherit)
                        ==> inherit == (inode.fsx_xflags & 0x200 != 0)
            },
            Err(e) => e == Errno::EINVAL && inode.fsx_projid > 0x7fff_ffff,
        },
{
}

/// What is set is what is read: the attributes that are written back are read as having the
/// identifier and the inheritance that were asked for.
pub proof fn law_project_reads_back(
    requests: FsxattrRequests,
    before: Fsxattr,
    project_id: ProjectId,
    inherit: bool,
    id: u32,
    written: Result<FsxattrCall, Errno>,
    read: Result<ProjectAttributes, Errno>,
)
    requires
        call_ensures(
            set_project_attributes,
            (requests, Ok::<Fsxattr, Errno>(before), project_id, inherit),
            written,
        ),
        call_ensures(ProjectId::as_u32, (project_id,), id),
        call_ensures(project_attributes, (Ok::<Fsxattr, Errno>(written->Ok_0.attributes),), read),
    ensures
        written is Ok,
        read is Ok,
        forall|read_id: ProjectId| #[trigger]
            call_ensures(ProjectAttributes::project_id, (read->Ok_0,), read_id) ==> read_id
                == project_id,
        forall|read_inherit: bool| #[trigger]
            call_ensures(ProjectAttributes::project_inherit, (read->Ok_0,), read_inherit)
                ==> read_inherit == inherit,
{
    lemma_inherit_flag(before.fsx_xflags);
    assert forall|read_id: ProjectId| #[trigger]
        call_ensures(ProjectAttributes::project_id, (read->Ok_0,), read_id) implies read_id
        == project_id by {
        crate::project::lemma_project_id_is_its_number(read_id, project_id);
    }
}

} // verus!
