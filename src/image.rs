use vstd::prelude::*;

use crate::error::VmError;
use crate::json::{is_json, json_member_str, json_string_member, json_valid};
use crate::paths::{app_data_dir, app_data_path, host_data_dir};
use crate::text::{
    append_decimal, decimal, ends_with, last_path_segment, last_segment, str_ends_with, trim_end_all,
    strings_view, trim_suffix_all,
};

verus! {

/// Information about a cached image.
#[derive(Debug, Clone)]
pub struct CachedImage {
    pub name: String,
    pub path: String,
    pub size_bytes: u64,
}

/// Returns the default image cache directory: `<user data dir or /tmp>/vmctl/images`.
pub fn cache_dir() -> (r: String)
    ensures
        exists|base: Option<Seq<char>>| r@ == app_data_path(base, "images"@),
{
    app_data_dir(host_data_dir(), "images")
}

/// `qemu-img info --output=json <path>`, without the program name.
pub open spec fn info_argv(path: Seq<char>) -> Seq<Seq<char>> {
    seq!["info"@, "--output=json"@, path]
}

/// Arguments of `qemu-img` that describe the image at `path` in JSON.
pub fn info_args(path: &str) -> (r: Vec<String>)
    ensures
        strings_view(r@) == info_argv(path@),
{
    let r = vec![String::from_str("info"), String::from_str("--output=json"), path.to_owned()];
    assert(strings_view(r@) =~= info_argv(path@));
    r
}

/// The format named in `qemu-img info` JSON output: its `format` string, or
/// `raw` without one.
pub open spec fn info_format(info: Seq<u8>) -> Seq<char> {
    match json_string_member(info, "format"@) {
        Some(f) => f,
        None => "raw"@,
    }
}

/// The format that `qemu-img info` reported in `info`: its `format` string,
/// or `raw` without one.
///
/// Fails with `FormatDetectionFailed` for `path` when `info` is not JSON.
pub fn format_from_info(path: &str, info: &[u8]) -> (r: Result<String, VmError>)
    ensures
        r is Ok <==> json_valid(info@),
        r matches Ok(f) ==> f@ == info_format(info@),
        r matches Err(e) ==> (e matches VmError::FormatDetectionFailed { path: p, .. } && p@ == path@),
{
    if !is_json(info) {
        return Err(
            VmError::FormatDetectionFailed {
                path: path.to_owned(),
                detail: String::from_str("failed to parse qemu-img JSON"),
            },
        );
    }
    match json_member_str(info, "format") {
        Some(f) => Ok(f),
        None => Ok(String::from_str("raw")),
    }
}

/// The result of `qemu-img info` on `path`: the failure with its `stderr`
/// when the command failed, else the format read from its `stdout`.
pub fn detect_format_result(path: &str, success: bool, stdout: &[u8], stderr: &str) -> (r: Result<
    String,
    VmError,
>)
    ensures
        !success ==> (r matches Err(VmError::FormatDetectionFailed { path: p, detail: d }) && p@ == path@
            && d@ == stderr@),
        success ==> (r is Ok <==> json_valid(stdout@)),
        success ==> (r matches Ok(f) ==> f@ == info_format(stdout@)),
        r matches Err(e) ==> (e matches VmError::FormatDetectionFailed { path: p, .. } && p@ == path@),
{
    if !success {
        return Err(VmError::FormatDetectionFailed { path: path.to_owned(), detail: stderr.to_owned() });
    }
    format_from_info(path, stdout)
}

/// `<gb>G`, a size in gigabytes as `qemu-img` reads it.
pub open spec fn size_arg(gb: u32) -> Seq<char> {
    decimal(gb as nat) + "G"@
}

/// `qemu-img create -f qcow2 -F <format> -b <base> <overlay> [<gb>G]`, without
/// the program name.
pub open spec fn overlay_argv(base: Seq<char>, overlay: Seq<char>, format: Seq<char>, size_gb: Option<u32>) -> Seq<
    Seq<char>,
> {
    let head = seq!["create"@, "-f"@, "qcow2"@, "-F"@, format, "-b"@, base, overlay];
    match size_gb {
        Some(gb) => head.push(size_arg(gb)),
        None => head,
    }
}

/// Arguments of `qemu-img` that create a QCOW2 overlay at `overlay` backed by
/// `base` of the given format, resized to `size_gb` gigabytes if given.
pub fn overlay_create_args(base: &str, overlay: &str, format: &str, size_gb: Option<u32>) -> (r: Vec<
    String,
>)
    ensures
        strings_view(r@) == overlay_argv(base@, overlay@, format@, size_gb),
{
    let mut r = vec![
        String::from_str("create"),
        String::from_str("-f"),
        String::from_str("qcow2"),
        String::from_str("-F"),
        format.to_owned(),
        String::from_str("-b"),
        base.to_owned(),
        overlay.to_owned(),
    ];
    let ghost head = strings_view(r@);
    match size_gb {
        Some(gb) => {
            let mut s = String::new();
            append_decimal(&mut s, gb as u64);
            s.append("G");
            r.push(s);
            proof {
                assert(strings_view(r@) =~= head.push(size_arg(gb)));
            }
        },
        None => {},
    }
    assert(strings_view(r@) =~= overlay_argv(base@, overlay@, format@, size_gb));
    r
}

/// The result of `qemu-img create` for an overlay of `base`: its failure,
/// with its `stderr`, when the command failed.
pub fn overlay_result(base: &str, success: bool, stderr: &str) -> (r: Result<(), VmError>)
    ensures
        success <==> r is Ok,
        r matches Err(e) ==> (e matches VmError::OverlayCreationFailed { base: b, detail: d } && b@ == base@
            && d@ == stderr@),
{
    if success {
        Ok(())
    } else {
        Err(VmError::OverlayCreationFailed { base: base.to_owned(), detail: stderr.to_owned() })
    }
}

/// `qemu-img convert -O <format> <src> <dst>`, without the program name.
pub open spec fn convert_argv(src: Seq<char>, dst: Seq<char>, format: Seq<char>) -> Seq<Seq<char>> {
    seq!["convert"@, "-O"@, format, src, dst]
}

/// Arguments of `qemu-img` that convert `src` into `dst` in `output_format`.
pub fn convert_args(src: &str, dst: &str, output_format: &str) -> (r: Vec<String>)
    ensures
        strings_view(r@) == convert_argv(src@, dst@, output_format@),
{
    let r = vec![String::from_str("convert"), String::from_str("-O"), output_format.to_owned(), src.to_owned(), dst.to_owned()];
    assert(strings_view(r@) =~= convert_argv(src@, dst@, output_format@));
    r
}

/// The result of `qemu-img convert`: its failure, with its `stderr`, when the
/// command failed.
pub fn convert_result(success: bool, stderr: &str) -> (r: Result<(), VmError>)
    ensures
        success <==> r is Ok,
        r matches Err(e) ==> (e matches VmError::ImageConversionFailed { detail: d } && d@ == stderr@),
{
    if success {
        Ok(())
    } else {
        Err(VmError::ImageConversionFailed { detail: stderr.to_owned() })
    }
}

/// A URL names a zstd-compressed image when it ends in `.zst` or `.zstd`.
pub open spec fn zstd_url(url: Seq<char>) -> bool {
    ends_with(url, ".zst"@) || ends_with(url, ".zstd"@)
}

/// Whether the image at `url` is zstd-compressed.
pub fn is_zstd_url(url: &str) -> (r: bool)
    ensures
        r == zstd_url(url@),
{
    str_ends_with(url, ".zst") || str_ends_with(url, ".zstd")
}

/// The cache file name of an image pulled from `url`: `name` when given, else
/// the URL's last path segment without its `.zst` and then `.zstd` endings.
pub open spec fn cache_name(url: Seq<char>, name: Option<Seq<char>>) -> Seq<char> {
    match name {
        Some(n) => n,
        None => trim_suffix_all(trim_suffix_all(last_segment(url), ".zst"@), ".zstd"@),
    }
}

/// The name under which an image pulled from `url` is cached.
pub fn cache_file_name(url: &str, name: Option<&str>) -> (r: String)
    ensures
        r@ == cache_name(
            url@,
            match name {
                Some(n) => Some(n@),
                None => None,
            },
        ),
{
    match name {
        Some(n) => n.to_owned(),
        None => {
            let seg = last_path_segment(url);
            let a = trim_end_all(seg.as_str(), ".zst");
            trim_end_all(a.as_str(), ".zstd")
        },
    }
}

/// Download progress after a chunk: the bytes counted (capped at `total`),
/// the percentage, and whether it is worth a log line (every 5% and at 100%).
/// Nothing is counted while the total size is unknown (0).
pub open spec fn progress_next(downloaded: u64, chunk: u64, total: u64, last_pct: u64) -> (u64, u64, bool) {
    if total == 0 {
        (downloaded, last_pct, false)
    } else {
        let d = if downloaded + chunk > total {
            total
        } else {
            (downloaded + chunk) as u64
        };
        let pct = (d as int * 100 / total as int) as u64;
        (d, pct, pct >= last_pct + 5 || pct == 100)
    }
}

/// Accounts for a downloaded chunk of `chunk` bytes.
pub fn download_progress(downloaded: u64, chunk: u64, total: u64, last_pct: u64) -> (r: (u64, u64, bool))
    ensures
        r == progress_next(downloaded, chunk, total, last_pct),
        total > 0 ==> r.1 <= 100,
{
    if total == 0 {
        return (downloaded, last_pct, false);
    }
    let sum: u128 = downloaded as u128 + chunk as u128;
    let d: u64 = if sum > total as u128 {
        total
    } else {
        sum as u64
    };
    let pct: u64 = ((d as u128) * 100 / (total as u128)) as u64;
    proof {
        assert(d as int * 100 / total as int <= 100) by (nonlinear_arith)
            requires
                d <= total,
                total > 0,
        ;
    }
    let log = (last_pct as u128) + 5 <= (pct as u128) || pct == 100;
    (d, pct, log)
}

} // verus!
