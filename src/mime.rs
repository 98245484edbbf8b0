//! Guessing a MIME type from a file name's extension.
use vstd::prelude::*;
use vstd::string::*;

use crate::text::str_eq;

verus! {

/// The MIME type registered for an extension, or the empty text for an unknown one.
pub open spec fn mime_for(ext: Seq<char>) -> Seq<char> {
    if ext == "7z"@ {
        "application/x-7z-compressed"@
    } else if ext == "abw"@ {
        "application/x-abiword"@
    } else if ext == "arc"@ {
        "application/x-freearc"@
    } else if ext == "azw"@ {
        "application/vnd.amazon.ebook"@
    } else if ext == "bin"@ {
        "application/octet-stream"@
    } else if ext == "bz"@ {
        "application/x-bzip"@
    } else if ext == "bz2"@ {
        "application/x-bzip2"@
    } else if ext == "cda"@ {
        "application/x-cdf"@
    } else if ext == "csh"@ {
        "application/x-csh"@
    } else if ext == "doc"@ {
        "application/msword"@
    } else if ext == "docx"@ {
        "application/vnd.openxmlformats-officedocument.wordprocessingml.document"@
    } else if ext == "eot"@ {
        "application/vnd.ms-fontobject"@
    } else if ext == "epub"@ {
        "application/epub+zip"@
    } else if ext == "gz"@ {
        "application/gzip"@
    } else if ext == "jar"@ {
        "application/java-archive"@
    } else if ext == "json"@ {
        "application/json"@
    } else if ext == "jsonld"@ {
        "application/ld+json"@
    } else if ext == "mpkg"@ {
        "application/vnd.apple.installer+xml"@
    } else if ext == "odp"@ {
        "application/vnd.oasis.opendocument.presentation"@
    } else if ext == "ods"@ {
        "application/vnd.oasis.opendocument.spreadsheet"@
    } else if ext == "odt"@ {
        "application/vnd.oasis.opendocument.text"@
    } else if ext == "ogx"@ {
        "application/ogg"@
    } else if ext == "pdf"@ {
        "application/pdf"@
    } else if ext == "php"@ {
        "application/x-httpd-php"@
    } else if ext == "ppt"@ {
        "application/vnd.ms-powerpoint"@
    } else if ext == "pptx"@ {
        "application/vnd.openxmlformats-officedocument.presentationml.presentation"@
    } else if ext == "rar"@ {
        "application/vnd.rar"@
    } else if ext == "rtf"@ {
        "application/rtf"@
    } else if ext == "sh"@ {
        "application/x-sh"@
    } else if ext == "tar"@ {
        "application/x-tar"@
    } else if ext == "vsd"@ {
        "application/vnd.visio"@
    } else if ext == "xhtml"@ {
        "application/xhtml+xml"@
    } else if ext == "xls"@ {
        "application/vnd.ms-excel"@
    } else if ext == "xlsx"@ {
        "application/vnd.openxmlformats-officedocument.spreadsheetml.sheet"@
    } else if ext == "xml"@ {
        "application/xml"@
    } else if ext == "xul"@ {
        "application/vnd.mozilla.xul+xml"@
    } else if ext == "zip"@ {
        "application/zip"@
    } else if ext == "aac"@ {
        "audio/aac"@
    } else if ext == "mid"@ {
        "audio/midi"@
    } else if ext == "midi"@ {
        "audio/midi"@
    } else if ext == "mp3"@ {
        "audio/mpeg"@
    } else if ext == "oga"@ {
        "audio/ogg"@
    } else if ext == "opus"@ {
        "audio/ogg"@
    } else if ext == "wav"@ {
        "audio/wav"@
    } else if ext == "weba"@ {
        "audio/webm"@
    } else if ext == "otf"@ {
        "font/otf"@
    } else if ext == "ttf"@ {
        "font/ttf"@
    } else if ext == "woff"@ {
        "font/woff"@
    } else if ext == "woff2"@ {
        "font/woff2"@
    } else if ext == "apng"@ {
        "image/apng"@
    } else if ext == "avif"@ {
        "image/avif"@
    } else if ext == "bmp"@ {
        "image/bmp"@
    } else if ext == "gif"@ {
        "image/gif"@
    } else if ext == "jpeg"@ {
        "image/jpeg"@
    } else if ext == "jpg"@ {
        "image/jpeg"@
    } else if ext == "png"@ {
        "image/png"@
    } else if ext == "svg"@ {
        "image/svg+xml"@
    } else if ext == "ico"@ {
        "image/vnd.microsoft.icon"@
    } else if ext == "webp"@ {
        "image/webp"@
    } else if ext == "tif"@ {
        "image/tiff"@
    } else if ext == "tiff"@ {
        "image/tiff"@
    } else if ext == "ics"@ {
        "text/calendar"@
    } else if ext == "css"@ {
        "text/css"@
    } else if ext == "csv"@ {
        "text/csv"@
    } else if ext == "htm"@ {
        "text/html"@
    } else if ext == "html"@ {
        "text/html"@
    } else if ext == "js"@ {
        "text/javascript"@
    } else if ext == "mjs"@ {
        "text/javascript"@
    } else if ext == "txt"@ {
        "text/plain"@
    } else if ext == "3gp"@ {
        "video/3gpp"@
    } else if ext == "3g2"@ {
        "video/3gpp2"@
    } else if ext == "mp4"@ {
        "video/mp4"@
    } else if ext == "mpeg"@ {
        "video/mpeg"@
    } else if ext == "ogv"@ {
        "video/ogg"@
    } else if ext == "webm"@ {
        "video/webm"@
    } else if ext == "avi"@ {
        "video/x-msvideo"@
    } else {
        ""@
    }
}

/// The text after the last `.` of a name, or the whole name when it has none.
pub open spec fn extension_of(s: Seq<char>) -> Seq<char>
    decreases s.len(),
{
    if s.len() == 0 {
        s
    } else if s.last() == '.' {
        Seq::empty()
    } else {
        extension_of(s.drop_last()).push(s.last())
    }
}

/// A `.txt` file is served as `text/plain`.
pub proof fn lemma_txt_is_text_plain()
    ensures
        mime_for("txt"@) == "text/plain"@,
        mime_for(extension_of("./assets/a.txt"@)) == "text/plain"@,
{
    reveal_strlit("7z");
    reveal_strlit("abw");
    reveal_strlit("arc");
    reveal_strlit("azw");
    reveal_strlit("bin");
    reveal_strlit("bz");
    reveal_strlit("bz2");
    reveal_strlit("cda");
    reveal_strlit("csh");
    reveal_strlit("doc");
    reveal_strlit("docx");
    reveal_strlit("eot");
    reveal_strlit("epub");
    reveal_strlit("gz");
    reveal_strlit("jar");
    reveal_strlit("json");
    reveal_strlit("jsonld");
    reveal_strlit("mpkg");
    reveal_strlit("odp");
    reveal_strlit("ods");
    reveal_strlit("odt");
    reveal_strlit("ogx");
    reveal_strlit("pdf");
    reveal_strlit("php");
    reveal_strlit("ppt");
    reveal_strlit("pptx");
    reveal_strlit("rar");
    reveal_strlit("rtf");
    reveal_strlit("sh");
    reveal_strlit("tar");
    reveal_strlit("vsd");
    reveal_strlit("xhtml");
    reveal_strlit("xls");
    reveal_strlit("xlsx");
    reveal_strlit("xml");
    reveal_strlit("xul");
    reveal_strlit("zip");
    reveal_strlit("aac");
    reveal_strlit("mid");
    reveal_strlit("midi");
    reveal_strlit("mp3");
    reveal_strlit("oga");
    reveal_strlit("opus");
    reveal_strlit("wav");
    reveal_strlit("weba");
    reveal_strlit("otf");
    reveal_strlit("ttf");
    reveal_strlit("woff");
    reveal_strlit("woff2");
    reveal_strlit("apng");
    reveal_strlit("avif");
    reveal_strlit("bmp");
    reveal_strlit("gif");
    reveal_strlit("jpeg");
    reveal_strlit("jpg");
    reveal_strlit("png");
    reveal_strlit("svg");
    reveal_strlit("ico");
    reveal_strlit("webp");
    reveal_strlit("tif");
    reveal_strlit("tiff");
    reveal_strlit("ics");
    reveal_strlit("css");
    reveal_strlit("csv");
    reveal_strlit("htm");
    reveal_strlit("html");
    reveal_strlit("js");
    reveal_strlit("mjs");
    reveal_strlit("txt");
    assert("txt"@.len() != "7z"@.len());
    assert("txt"@[0] != "abw"@[0]);
    assert("txt"@[0] != "arc"@[0]);
    assert("txt"@[0] != "azw"@[0]);
    assert("txt"@[0] != "bin"@[0]);
    assert("txt"@.len() != "bz"@.len());
    assert("txt"@[0] != "bz2"@[0]);
    assert("txt"@[0] != "cda"@[0]);
    assert("txt"@[0] != "csh"@[0]);
    assert("txt"@[0] != "doc"@[0]);
    assert("txt"@.len() != "docx"@.len());
    assert("txt"@[0] != "eot"@[0]);
    assert("txt"@.len() != "epub"@.len());
    assert("txt"@.len() != "gz"@.len());
    assert("txt"@[0] != "jar"@[0]);
    assert("txt"@.len() != "json"@.len());
    assert("txt"@.len() != "jsonld"@.len());
    assert("txt"@.len() != "mpkg"@.len());
    assert("txt"@[0] != "odp"@[0]);
    assert("txt"@[0] != "ods"@[0]);
    assert("txt"@[0] != "odt"@[0]);
    assert("txt"@[0] != "ogx"@[0]);
    assert("txt"@[0] != "pdf"@[0]);
    assert("txt"@[0] != "php"@[0]);
    assert("txt"@[0] != "ppt"@[0]);
    assert("txt"@.len() != "pptx"@.len());
    assert("txt"@[0] != "rar"@[0]);
    assert("txt"@[0] != "rtf"@[0]);
    assert("txt"@.len() != "sh"@.len());
    assert("txt"@[1] != "tar"@[1]);
    assert("txt"@[0] != "vsd"@[0]);
    assert("txt"@.len() != "xhtml"@.len());
    assert("txt"@[0] != "xls"@[0]);
    assert("txt"@.len() != "xlsx"@.len());
    assert("txt"@[0] != "xml"@[0]);
    assert("txt"@[0] != "xul"@[0]);
    assert("txt"@[0] != "zip"@[0]);
    assert("txt"@[0] != "aac"@[0]);
    assert("txt"@[0] != "mid"@[0]);
    assert("txt"@.len() != "midi"@.len());
    assert("txt"@[0] != "mp3"@[0]);
    assert("txt"@[0] != "oga"@[0]);
    assert("txt"@.len() != "opus"@.len());
    assert("txt"@[0] != "wav"@[0]);
    assert("txt"@.len() != "weba"@.len());
    assert("txt"@[0] != "otf"@[0]);
    assert("txt"@[1] != "ttf"@[1]);
    assert("txt"@.len() != "woff"@.len());
    assert("txt"@.len() != "woff2"@.len());
    assert("txt"@.len() != "apng"@.len());
    assert("txt"@.len() != "avif"@.len());
    assert("txt"@[0] != "bmp"@[0]);
    assert("txt"@[0] != "gif"@[0]);
    assert("txt"@.len() != "jpeg"@.len());
    assert("txt"@[0] != "jpg"@[0]);
    assert("txt"@[0] != "png"@[0]);
    assert("txt"@[0] != "svg"@[0]);
    assert("txt"@[0] != "ico"@[0]);
    assert("txt"@.len() != "webp"@.len());
    assert("txt"@[1] != "tif"@[1]);
    assert("txt"@.len() != "tiff"@.len());
    assert("txt"@[0] != "ics"@[0]);
    assert("txt"@[0] != "css"@[0]);
    assert("txt"@[0] != "csv"@[0]);
    assert("txt"@[0] != "htm"@[0]);
    assert("txt"@.len() != "html"@.len());
    assert("txt"@.len() != "js"@.len());
    assert("txt"@[0] != "mjs"@[0]);
    reveal_strlit("./assets/a.txt");
    let s = "./assets/a.txt"@;
    assert(s.drop_last() =~= "./assets/a.tx"@) by {
        reveal_strlit("./assets/a.tx");
    }
    assert(extension_of(s) =~= "txt"@) by {
        reveal_strlit("./assets/a.tx");
        reveal_strlit("./assets/a.t");
        reveal_strlit("./assets/a.");
        assert(s.drop_last().drop_last() =~= "./assets/a.t"@);
        assert(s.drop_last().drop_last().drop_last() =~= "./assets/a."@);
        assert(extension_of("./assets/a."@) == Seq::<char>::empty());
        assert(extension_of("./assets/a.t"@) =~= seq!['t']);
        assert(extension_of("./assets/a.tx"@) =~= seq!['t', 'x']);
    }
}

/// The MIME type registered for an extension, or the empty string.
fn ext_to_mime(ext: &str) -> (r: &'static str)
    ensures
        r@ == mime_for(ext@),
{
    if str_eq(ext, "7z") {
        "application/x-7z-compressed"
    } else if str_eq(ext, "abw") {
        "application/x-abiword"
    } else if str_eq(ext, "arc") {
        "application/x-freearc"
    } else if str_eq(ext, "azw") {
        "application/vnd.amazon.ebook"
    } else if str_eq(ext, "bin") {
        "application/octet-stream"
    } else if str_eq(ext, "bz") {
        "application/x-bzip"
    } else if str_eq(ext, "bz2") {
        "application/x-bzip2"
    } else if str_eq(ext, "cda") {
        "application/x-cdf"
    } else if str_eq(ext, "csh") {
        "application/x-csh"
    } else if str_eq(ext, "doc") {
        "application/msword"
    } else if str_eq(ext, "docx") {
        "application/vnd.openxmlformats-officedocument.wordprocessingml.document"
    } else if str_eq(ext, "eot") {
        "application/vnd.ms-fontobject"
    } else if str_eq(ext, "epub") {
        "application/epub+zip"
    } else if str_eq(ext, "gz") {
        "application/gzip"
    } else if str_eq(ext, "jar") {
        "application/java-archive"
    } else if str_eq(ext, "json") {
        "application/json"
    } else if str_eq(ext, "jsonld") {
        "application/ld+json"
    } else if str_eq(ext, "mpkg") {
        "application/vnd.apple.installer+xml"
    } else if str_eq(ext, "odp") {
        "application/vnd.oasis.opendocument.presentation"
    } else if str_eq(ext, "ods") {
        "application/vnd.oasis.opendocument.spreadsheet"
    } else if str_eq(ext, "odt") {
        "application/vnd.oasis.opendocument.text"
    } else if str_eq(ext, "ogx") {
        "application/ogg"
    } else if str_eq(ext, "pdf") {
        "application/pdf"
    } else if str_eq(ext, "php") {
        "application/x-httpd-php"
    } else if str_eq(ext, "ppt") {
        "application/vnd.ms-powerpoint"
    } else if str_eq(ext, "pptx") {
        "application/vnd.openxmlformats-officedocument.presentationml.presentation"
    } else if str_eq(ext, "rar") {
        "application/vnd.rar"
    } else if str_eq(ext, "rtf") {
        "application/rtf"
    } else if str_eq(ext, "sh") {
        "application/x-sh"
    } else if str_eq(ext, "tar") {
        "application/x-tar"
    } else if str_eq(ext, "vsd") {
        "application/vnd.visio"
    } else if str_eq(ext, "xhtml") {
        "application/xhtml+xml"
    } else if str_eq(ext, "xls") {
        "application/vnd.ms-excel"
    } else if str_eq(ext, "xlsx") {
        "application/vnd.openxmlformats-officedocument.spreadsheetml.sheet"
    } else if str_eq(ext, "xml") {
        "application/xml"
    } else if str_eq(ext, "xul") {
        "application/vnd.mozilla.xul+xml"
    } else if str_eq(ext, "zip") {
        "application/zip"
    } else if str_eq(ext, "aac") {
        "audio/aac"
    } else if str_eq(ext, "mid") {
        "audio/midi"
    } else if str_eq(ext, "midi") {
        "audio/midi"
    } else if str_eq(ext, "mp3") {
        "audio/mpeg"
    } else if str_eq(ext, "oga") {
        "audio/ogg"
    } else if str_eq(ext, "opus") {
        "audio/ogg"
    } else if str_eq(ext, "wav") {
        "audio/wav"
    } else if str_eq(ext, "weba") {
        "audio/webm"
    } else if str_eq(ext, "otf") {
        "font/otf"
    } else if str_eq(ext, "ttf") {
        "font/ttf"
    } else if str_eq(ext, "woff") {
        "font/woff"
    } else if str_eq(ext, "woff2") {
        "font/woff2"
    } else if str_eq(ext, "apng") {
        "image/apng"
    } else if str_eq(ext, "avif") {
        "image/avif"
    } else if str_eq(ext, "bmp") {
        "image/bmp"
    } else if str_eq(ext, "gif") {
        "image/gif"
    } else if str_eq(ext, "jpeg") {
        "image/jpeg"
    } else if str_eq(ext, "jpg") {
        "image/jpeg"
    } else if str_eq(ext, "png") {
        "image/png"
    } else if str_eq(ext, "svg") {
        "image/svg+xml"
    } else if str_eq(ext, "ico") {
        "image/vnd.microsoft.icon"
    } else if str_eq(ext, "webp") {
        "image/webp"
    } else if str_eq(ext, "tif") {
        "image/tiff"
    } else if str_eq(ext, "tiff") {
        "image/tiff"
    } else if str_eq(ext, "ics") {
        "text/calendar"
    } else if str_eq(ext, "css") {
        "text/css"
    } else if str_eq(ext, "csv") {
        "text/csv"
    } else if str_eq(ext, "htm") {
        "text/html"
    } else if str_eq(ext, "html") {
        "text/html"
    } else if str_eq(ext, "js") {
        "text/javascript"
    } else if str_eq(ext, "mjs") {
        "text/javascript"
    } else if str_eq(ext, "txt") {
        "text/plain"
    } else if str_eq(ext, "3gp") {
        "video/3gpp"
    } else if str_eq(ext, "3g2") {
        "video/3gpp2"
    } else if str_eq(ext, "mp4") {
        "video/mp4"
    } else if str_eq(ext, "mpeg") {
        "video/mpeg"
    } else if str_eq(ext, "ogv") {
        "video/ogg"
    } else if str_eq(ext, "webm") {
        "video/webm"
    } else if str_eq(ext, "avi") {
        "video/x-msvideo"
    } else {
        ""
    }
}

/// The part of `filename` after its last `.`.
fn extension(filename: &str) -> (r: &str)
    ensures
        r@ == extension_of(filename@),
{
    let n = filename.unicode_len();
    let mut j: usize = n;
    assert(filename@.subrange(0, n as int) =~= filename@);
    assert(filename@.subrange(n as int, n as int) =~= Seq::<char>::empty());
    while j > 0 && filename.get_char(j - 1) != '.'
        invariant
            n == filename@.len(),
            j <= n,
            extension_of(filename@) == extension_of(filename@.subrange(0, j as int))
                + filename@.subrange(j as int, n as int),
        decreases j,
    {
        let ghost s = filename@;
        assert(s.subrange(0, j as int).drop_last() =~= s.subrange(0, j - 1));
        assert(s.subrange(j - 1, n as int) =~= seq![s[j - 1]] + s.subrange(j as int, n as int));
        assert(extension_of(s.subrange(0, j as int)) == extension_of(s.subrange(0, j - 1)).push(
            s[j - 1],
        ));
        assert(extension_of(s) =~= extension_of(s.subrange(0, j - 1)) + s.subrange(
            j - 1,
            n as int,
        ));
        j = j - 1;
    }
    proof {
        let s = filename@;
        if j == 0 {
            assert(s.subrange(0, 0) =~= Seq::<char>::empty());
        }
        assert(extension_of(s.subrange(0, j as int)) =~= Seq::<char>::empty());
        assert(extension_of(s) =~= s.subrange(j as int, n as int));
    }
    filename.substring_char(j, n)
}

/// The MIME type for a file name, from the text after its last `.`; `None` when the
/// extension is not in the table.
pub fn guess_mime(filename: &str) -> (r: Option<String>)
    ensures
        match r {
            Some(m) => m@ == mime_for(extension_of(filename@)) && m@.len() > 0,
            None => mime_for(extension_of(filename@)).len() == 0,
        },
{
    let mime = ext_to_mime(extension(filename));
    if mime.is_empty() {
        None
    } else {
        Some(mime.to_owned())
    }
}

} // verus!
