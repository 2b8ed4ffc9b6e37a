use vstd::prelude::*;

use crate::text::push_text;

verus! {

/// Directory that holds the kernel, the base images, the hypervisor binary and the key.
pub const ASSET_DIR: &'static str = "/home/reprah007.linux/firecracker-assets";

/// Name of the hypervisor binary among the assets.
pub const HYPERVISOR_BINARY: &'static str = "firecracker";

/// Name of the boot kernel among the assets.
pub const KERNEL_IMAGE: &'static str = "vmlinux.bin";

/// Name of the private key that opens sessions into guests.
pub const GUEST_KEY: &'static str = "ubuntu-24.04.id_rsa";

/// Image booted when the caller names none.
pub const DEFAULT_IMAGE: &'static str = "ubuntu-rootfs";

/// The path of asset `filename`: the asset directory, a slash, the name.
pub open spec fn asset_path_of(filename: Seq<char>) -> Seq<char> {
    ASSET_DIR@ + "/"@ + filename
}

/// The file name of image `image`: the name followed by `.ext4`.
pub open spec fn image_file_of(image: Seq<char>) -> Seq<char> {
    image + ".ext4"@
}

/// The path of asset `filename`.
pub fn get_asset_path(filename: &str) -> (r: String)
    ensures
        r@ == asset_path_of(filename@),
{
    let mut s = String::new();
    push_text(&mut s, ASSET_DIR);
    push_text(&mut s, "/");
    push_text(&mut s, filename);
    assert(s@ =~= asset_path_of(filename@));
    s
}

/// The path of the filesystem image named `image`.
pub fn image_path(image: &str) -> (r: String)
    ensures
        r@ == asset_path_of(image_file_of(image@)),
{
    let mut f = String::new();
    push_text(&mut f, image);
    push_text(&mut f, ".ext4");
    let r = get_asset_path(f.as_str());
    assert(f@ =~= image_file_of(image@));
    r
}

} // verus!
