use vstd::prelude::*;

use std::io::Read;

use crate::error::{ErrorKind, PluginError};
use crate::platform::ArchiveFormat;

verus! {

/// The bytes of the first file of a zip archive, as the `zip` crate reads them; `None` where
/// the archive is malformed or holds no file.
pub uninterp spec fn zip_first_entry(archive: Seq<u8>) -> Option<Seq<u8>>;

/// The decompressed contents of a gzip stream, as `flate2` decodes it; `None` where the stream
/// is malformed.
pub uninterp spec fn gunzipped(data: Seq<u8>) -> Option<Seq<u8>>;

/// The bytes of the first entry of a tar archive, as the `tar` crate reads them; `None` where
/// the archive is malformed or holds no entry.
pub uninterp spec fn tar_first_entry(archive: Seq<u8>) -> Option<Seq<u8>>;

/// Relies on zip::ZipArchive::new and ZipArchive::by_index_decrypt(0, ..): the first file of
/// the archive, read to its end; the outcome depends on the bytes alone. An unencrypted entry
/// ignores the (empty) password, and an entry that cannot be read without one is an error.
/// `by_index` would unwrap that error instead.
#[verifier::external_body]
fn read_zip_first(archive: &Vec<u8>) -> (r: Result<Vec<u8>, String>)
    ensures
        r is Ok <==> zip_first_entry(archive@) is Some,
        r is Ok ==> r->Ok_0@ == zip_first_entry(archive@)->0,
{
    let mut files = zip::ZipArchive::new(std::io::Cursor::new(archive.as_slice())).map_err(
        |e| e.to_string(),
    )?;
    let mut out = Vec::new();
    let read = match files.by_index_decrypt(0, &[]) {
        Ok(Ok(mut entry)) => entry.read_to_end(&mut out).map_err(|e| e.to_string()),
        Ok(Err(e)) => Err(e.to_string()),
        Err(e) => Err(e.to_string()),
    };
    read.map(|_| out)
}

/// Relies on flate2::bufread::GzDecoder: the decompressed gzip member, read to its end; the
/// outcome depends on the bytes alone.
#[verifier::external_body]
fn gunzip(data: &Vec<u8>) -> (r: Result<Vec<u8>, String>)
    ensures
        r is Ok <==> gunzipped(data@) is Some,
        r is Ok ==> r->Ok_0@ == gunzipped(data@)->0,
{
    let mut out = Vec::new();
    flate2::bufread::GzDecoder::new(data.as_slice()).read_to_end(&mut out).map(|_| out).map_err(
        |e| e.to_string(),
    )
}

/// Relies on tar::Archive::entries: the first entry that the iterator yields, read to its end;
/// an archive without entries fails. The outcome depends on the bytes alone.
#[verifier::external_body]
fn read_tar_first(archive: &Vec<u8>) -> (r: Result<Vec<u8>, String>)
    ensures
        r is Ok <==> tar_first_entry(archive@) is Some,
        r is Ok ==> r->Ok_0@ == tar_first_entry(archive@)->0,
{
    let mut tar = tar::Archive::new(archive.as_slice());
    let entry = tar.entries().and_then(
        |mut entries| entries.next().unwrap_or(Err(std::io::ErrorKind::UnexpectedEof.into())),
    );
    let mut out = Vec::new();
    entry.and_then(|mut e| e.read_to_end(&mut out)).map(|_| out).map_err(|e| e.to_string())
}

/// The executable that a release archive in `format` holds: its first entry.
pub open spec fn extracted(format: ArchiveFormat, body: Seq<u8>) -> Option<Seq<u8>> {
    match format {
        ArchiveFormat::Zip => zip_first_entry(body),
        ArchiveFormat::TarGz => match gunzipped(body) {
            Some(tar) => tar_first_entry(tar),
            None => None,
        },
    }
}

/// Unpacks the executable from a release archive: the first file of a zip archive, or the
/// first entry of a gzip-compressed tar archive.
pub fn extract_executable(format: ArchiveFormat, body: &Vec<u8>) -> (r: Result<
    Vec<u8>,
    PluginError,
>)
    ensures
        r is Ok <==> extracted(format, body@) is Some,
        r is Ok ==> r->Ok_0@ == extracted(format, body@)->0,
        r is Err ==> r->Err_0.kind == ErrorKind::ExtractionFailure,
{
    let unpacked = match format {
        ArchiveFormat::Zip => read_zip_first(body),
        ArchiveFormat::TarGz => match gunzip(body) {
            Ok(tar) => read_tar_first(&tar),
            Err(e) => Err(e),
        },
    };
    match unpacked {
        Ok(bytes) => Ok(bytes),
        Err(e) => Err(PluginError::new(ErrorKind::ExtractionFailure, e)),
    }
}

} // verus!
