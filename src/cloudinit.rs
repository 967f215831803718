use vstd::prelude::*;
use vstd::utf8::encode_utf8;

use crate::error::VmError;
use crate::text::strings_view;

verus! {

/// Size of an ISO-9660 logical sector.
pub const SECTOR_SIZE: usize = 2048;

/// Logical block of the Primary Volume Descriptor.
pub const PVD_LBA: usize = 16;

/// Offset of the Volume Identifier inside the Primary Volume Descriptor.
pub const VOLUME_ID_OFFSET: usize = 40;

/// Length of the Volume Identifier field.
pub const VOLUME_ID_LEN: usize = 32;

/// Absolute offset of the Volume Identifier in an ISO-9660 image.
pub open spec fn volume_id_pos() -> int {
    PVD_LBA * SECTOR_SIZE + VOLUME_ID_OFFSET
}

/// The label that cloud-init's NoCloud source looks for.
pub open spec fn cidata_label() -> Seq<u8> {
    seq![0x43u8, 0x49u8, 0x44u8, 0x41u8, 0x54u8, 0x41u8]
}

/// `CIDATA` right-padded with spaces to the width of the Volume Identifier.
pub open spec fn cidata_field() -> Seq<u8> {
    cidata_label() + Seq::new(26, |i: int| 0x20u8)
}

/// The 32 bytes written over the Volume Identifier: `CIDATA` and 26 spaces.
pub fn cidata_volume_id() -> (r: Vec<u8>)
    ensures
        r@ == cidata_field(),
        r@.len() == VOLUME_ID_LEN,
{
    let mut r: Vec<u8> = vec![0x43u8, 0x49u8, 0x44u8, 0x41u8, 0x54u8, 0x41u8];
    while r.len() < VOLUME_ID_LEN
        invariant
            6 <= r@.len() <= VOLUME_ID_LEN,
            r@.subrange(0, 6) == cidata_label(),
            forall|i: int| 6 <= i < r@.len() ==> r@[i] == 0x20u8,
        decreases VOLUME_ID_LEN - r@.len(),
    {
        r.push(0x20u8);
    }
    assert(r@ =~= cidata_field());
    r
}

/// `image` with the Volume Identifier of its Primary Volume Descriptor replaced
/// by the NoCloud label.
pub open spec fn patched_image(image: Seq<u8>) -> Seq<u8> {
    image.subrange(0, volume_id_pos()) + cidata_field() + image.subrange(
        volume_id_pos() + 32,
        image.len() as int,
    )
}

/// Rewrites the Volume Identifier of an ISO-9660 image to `CIDATA`.
///
/// Fails with `IsoWriteFailed`, leaving `image` as it was, when the image is too
/// short to hold a Primary Volume Descriptor.
pub fn patch_volume_id(image: &mut Vec<u8>) -> (r: Result<(), VmError>)
    ensures
        r is Ok <==> old(image)@.len() >= volume_id_pos() + 32,
        r is Ok ==> final(image)@ == patched_image(old(image)@),
        r is Ok ==> final(image)@.len() == old(image)@.len(),
        r is Ok ==> final(image)@.subrange(volume_id_pos(), volume_id_pos() + 32) == cidata_field(),
        r is Err ==> final(image)@ == old(image)@,
        r matches Err(e) ==> e is IsoWriteFailed,
{
    let offset: usize = PVD_LBA * SECTOR_SIZE + VOLUME_ID_OFFSET;
    if image.len() < offset + VOLUME_ID_LEN {
        return Err(VmError::IsoWriteFailed { detail: String::from_str("image too short for a primary volume descriptor") });
    }
    let field = cidata_volume_id();
    let mut i: usize = 0;
    while i < VOLUME_ID_LEN
        invariant
            offset == volume_id_pos(),
            field@ == cidata_field(),
            i <= VOLUME_ID_LEN,
            image@.len() == old(image)@.len(),
            image@.len() >= offset + 32,
            forall|j: int| 0 <= j < offset ==> image@[j] == old(image)@[j],
            forall|j: int| offset + 32 <= j < image@.len() ==> image@[j] == old(image)@[j],
            forall|j: int| offset <= j < offset + i ==> image@[j] == field@[j - offset],
            forall|j: int| offset + i <= j < offset + 32 ==> image@[j] == old(image)@[j],
        decreases VOLUME_ID_LEN - i,
    {
        image.set(offset + i, field[i]);
        i = i + 1;
    }
    assert(image@ =~= patched_image(old(image)@));
    assert(image@.subrange(volume_id_pos(), volume_id_pos() + 32) =~= cidata_field());
    Ok(())
}

/// The meta-data document of a NoCloud seed.
pub open spec fn meta_data_text(instance_id: Seq<char>, hostname: Seq<char>) -> Seq<char> {
    "instance-id: "@ + instance_id + "\nlocal-hostname: "@ + hostname + "\n"@
}

/// The user-data document that creates one sudo user with an SSH key.
pub open spec fn cloud_config_text(user: Seq<char>, ssh_pubkey: Seq<char>) -> Seq<char> {
    "#cloud-config\nusers:\n  - name: "@ + user
        + "\n    groups: [sudo]\n    sudo: ALL=(ALL) NOPASSWD:ALL\n    shell: /bin/bash\n    ssh_authorized_keys:\n      - "@
        + ssh_pubkey + "\nssh_pwauth: false\ndisable_root: true\nchpasswd:\n  expire: false\n"@
}

/// Meta-data naming the instance and its hostname, as UTF-8 bytes.
pub fn meta_data_bytes(instance_id: &str, hostname: &str) -> (r: Vec<u8>)
    ensures
        r@ == encode_utf8(meta_data_text(instance_id@, hostname@)),
{
    let mut s = String::from_str("instance-id: ");
    s.append(instance_id);
    s.append("\nlocal-hostname: ");
    s.append(hostname);
    s.append("\n");
    s.as_str().as_bytes_vec()
}

/// Builds a minimal cloud-config user-data and the meta-data.
///
/// Returns `(user_data_bytes, meta_data_bytes)`.
pub fn build_cloud_config(user: &str, ssh_pubkey: &str, instance_id: &str, hostname: &str) -> (r: (
    Vec<u8>,
    Vec<u8>,
))
    ensures
        r.0@ == encode_utf8(cloud_config_text(user@, ssh_pubkey@)),
        r.1@ == encode_utf8(meta_data_text(instance_id@, hostname@)),
{
    let mut s = String::from_str("#cloud-config\nusers:\n  - name: ");
    s.append(user);
    s.append(
        "\n    groups: [sudo]\n    sudo: ALL=(ALL) NOPASSWD:ALL\n    shell: /bin/bash\n    ssh_authorized_keys:\n      - ",
    );
    s.append(ssh_pubkey);
    s.append("\nssh_pwauth: false\ndisable_root: true\nchpasswd:\n  expire: false\n");
    (s.as_str().as_bytes_vec(), meta_data_bytes(instance_id, hostname))
}

/// The external ISO tools, in the order they are tried.
pub open spec fn iso_tools() -> Seq<Seq<char>> {
    seq!["genisoimage"@, "mkisofs"@]
}

/// Arguments for `genisoimage`/`mkisofs` that write a NoCloud seed.
pub open spec fn iso_tool_argv(out: Seq<char>, user_data: Seq<char>, meta_data: Seq<char>) -> Seq<
    Seq<char>,
> {
    seq!["-quiet"@, "-output"@, out, "-volid"@, "cidata"@, "-joliet"@, "-rock"@, user_data, meta_data]
}

/// The names of the external ISO tools, first choice first.
pub fn iso_tool_names() -> (r: Vec<String>)
    ensures
        strings_view(r@) == iso_tools(),
{
    let r = vec![String::from_str("genisoimage"), String::from_str("mkisofs")];
    assert(strings_view(r@) =~= iso_tools());
    r
}

/// The argument vector for an external ISO tool writing `out` from the two
/// seed files, with volume ID `cidata`, Joliet and Rock Ridge.
pub fn iso_tool_args(out: &str, user_data_path: &str, meta_data_path: &str) -> (r: Vec<String>)
    ensures
        strings_view(r@) == iso_tool_argv(out@, user_data_path@, meta_data_path@),
{
    let r = vec![
        String::from_str("-quiet"),
        String::from_str("-output"),
        out.to_owned(),
        String::from_str("-volid"),
        String::from_str("cidata"),
        String::from_str("-joliet"),
        String::from_str("-rock"),
        user_data_path.to_owned(),
        meta_data_path.to_owned(),
    ];
    assert(strings_view(r@) =~= iso_tool_argv(out@, user_data_path@, meta_data_path@));
    r
}

} // verus!
