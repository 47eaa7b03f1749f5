//! The labels of the label classifier and what is known of each.

use vstd::prelude::*;

verus! {

/// Number of labels.
pub const LABEL_COUNT: usize = 113;

/// What is known of a label.
pub struct Metadata {
    /// The non-capitalized name of the label.
    pub code: &'static str,
    /// A description of the label.
    pub desc: &'static str,
    /// What the `file` tool reports for such content.
    pub magic: &'static str,
    /// The group of the label.
    pub group: &'static str,
    /// The MIME type of the label.
    pub mime: &'static str,
    /// Possible extensions.
    pub extension: &'static [&'static str],
    /// Whether the label is text.
    pub is_text: bool,
}

/// Content type of a file.
#[derive(Debug, Clone, Copy, PartialEq, Eq, Structural)]
pub enum Label {
    /// Adobe Illustrator Artwork
    Ai,
    /// Android package
    Apk,
    /// Apple property list
    Appleplist,
    /// Assembly
    Asm,
    /// ASP source
    Asp,
    /// DOS batch file
    Batch,
    /// BMP image data
    Bmp,
    /// bzip2 compressed data
    Bzip,
    /// C source
    C,
    /// Microsoft Cabinet archive data
    Cab,
    /// Windows Catalog file
    Cat,
    /// MS Windows HtmlHelp Data
    Chm,
    /// Intel 80386 COFF
    Coff,
    /// Google Chrome extension
    Crx,
    /// C# source
    Cs,
    /// CSS source
    Css,
    /// CSV document
    Csv,
    /// Debian binary package
    Deb,
    /// Dalvik dex file
    Dex,
    /// Apple disk image
    Dmg,
    /// Microsoft Word CDF document
    Doc,
    /// Microsoft Word 2007+ document
    Docx,
    /// ELF executable
    Elf,
    /// Windows Enhanced Metafile image data
    Emf,
    /// RFC 822 mail
    Eml,
    /// EPUB document
    Epub,
    /// FLAC audio bitstream data
    Flac,
    /// GIF image data
    Gif,
    /// Golang source
    Go,
    /// gzip compressed data
    Gzip,
    /// MS Windows help
    Hlp,
    /// HTML document
    Html,
    /// MS Windows icon resource
    Ico,
    /// INI configuration file
    Ini,
    /// MS Windows Internet shortcut
    Internetshortcut,
    /// ISO 9660 CD-ROM filesystem data
    Iso,
    /// Java archive data (JAR)
    Jar,
    /// Java source
    Java,
    /// Java compiled bytecode
    Javabytecode,
    /// JavaScript source
    Javascript,
    /// JPEG image data
    Jpeg,
    /// JSON document
    Json,
    /// LaTeX document
    Latex,
    /// Lisp source
    Lisp,
    /// MS Windows shortcut
    Lnk,
    /// M3U playlist
    M3u,
    /// Mach-O executable
    Macho,
    /// Makefile source
    Makefile,
    /// Markdown document
    Markdown,
    /// MHTML document
    Mht,
    /// MP3 media file
    Mp3,
    /// MP4 media file
    Mp4,
    /// MS Compress archive data
    Mscompress,
    /// Microsoft Installer file
    Msi,
    /// Windows Update Package file
    Mum,
    /// ODEX ELF executable
    Odex,
    /// OpenDocument Presentation
    Odp,
    /// OpenDocument Spreadsheet
    Ods,
    /// OpenDocument Text
    Odt,
    /// Ogg data
    Ogg,
    /// MS Outlook Message
    Outlook,
    /// pcap capture file
    Pcap,
    /// PDF document
    Pdf,
    /// PE executable
    Pebin,
    /// PEM certificate
    Pem,
    /// Perl source
    Perl,
    /// PHP source
    Php,
    /// PNG image data
    Png,
    /// PostScript document
    Postscript,
    /// Powershell source
    Powershell,
    /// Microsoft PowerPoint CDF document
    Ppt,
    /// Microsoft PowerPoint 2007+ document
    Pptx,
    /// Python source
    Python,
    /// Python compiled bytecode
    Pythonbytecode,
    /// RAR archive data
    Rar,
    /// Resource Description Framework document (RDF)
    Rdf,
    /// RedHat Package Manager archive (RPM)
    Rpm,
    /// ReStructuredText document
    Rst,
    /// Rich Text Format document
    Rtf,
    /// Ruby source
    Ruby,
    /// Rust source
    Rust,
    /// Scala source
    Scala,
    /// 7-zip archive data
    Sevenzip,
    /// Shell script
    Shell,
    /// Smali source
    Smali,
    /// SQL source
    Sql,
    /// Squash filesystem
    Squashfs,
    /// SVG Scalable Vector Graphics image data
    Svg,
    /// Macromedia Flash data
    Swf,
    /// Symbolic link (textual representation)
    Symlinktext,
    /// POSIX tar archive
    Tar,
    /// Targa image data
    Tga,
    /// TIFF image data
    Tiff,
    /// BitTorrent file
    Torrent,
    /// TrueType Font data
    Ttf,
    /// Generic text document
    Txt,
    /// Unknown binary data
    Unknown,
    /// MS Visual Basic source (VBA)
    Vba,
    /// Waveform Audio file (WAV)
    Wav,
    /// WebM data
    Webm,
    /// WebP data
    Webp,
    /// Windows Registry text
    Winregistry,
    /// Windows metafile
    Wmf,
    /// XAR archive compressed data
    Xar,
    /// Microsoft Excel CDF document
    Xls,
    /// Microsoft Excel 2007+ document (binary format)
    Xlsb,
    /// Microsoft Excel 2007+ document
    Xlsx,
    /// XML document
    Xml,
    /// Compressed installation archive (XPI)
    Xpi,
    /// XZ compressed data
    Xz,
    /// YAML source
    Yaml,
    /// Zip archive data
    Zip,
    /// zlib compressed data
    Zlibstream,
}

impl Label {
    /// Position of the label, dense in `[0, LABEL_COUNT)`.
    pub open spec fn spec_index(self) -> nat {
        match self {
            Label::Ai => 0,
            Label::Apk => 1,
            Label::Appleplist => 2,
            Label::Asm => 3,
            Label::Asp => 4,
            Label::Batch => 5,
            Label::Bmp => 6,
            Label::Bzip => 7,
            Label::C => 8,
            Label::Cab => 9,
            Label::Cat => 10,
            Label::Chm => 11,
            Label::Coff => 12,
            Label::Crx => 13,
            Label::Cs => 14,
            Label::Css => 15,
            Label::Csv => 16,
            Label::Deb => 17,
            Label::Dex => 18,
            Label::Dmg => 19,
            Label::Doc => 20,
            Label::Docx => 21,
            Label::Elf => 22,
            Label::Emf => 23,
            Label::Eml => 24,
            Label::Epub => 25,
            Label::Flac => 26,
            Label::Gif => 27,
            Label::Go => 28,
            Label::Gzip => 29,
            Label::Hlp => 30,
            Label::Html => 31,
            Label::Ico => 32,
            Label::Ini => 33,
            Label::Internetshortcut => 34,
            Label::Iso => 35,
            Label::Jar => 36,
            Label::Java => 37,
            Label::Javabytecode => 38,
            Label::Javascript => 39,
            Label::Jpeg => 40,
            Label::Json => 41,
            Label::Latex => 42,
            Label::Lisp => 43,
            Label::Lnk => 44,
            Label::M3u => 45,
            Label::Macho => 46,
            Label::Makefile => 47,
            Label::Markdown => 48,
            Label::Mht => 49,
            Label::Mp3 => 50,
            Label::Mp4 => 51,
            Label::Mscompress => 52,
            Label::Msi => 53,
            Label::Mum => 54,
            Label::Odex => 55,
            Label::Odp => 56,
            Label::Ods => 57,
            Label::Odt => 58,
            Label::Ogg => 59,
            Label::Outlook => 60,
            Label::Pcap => 61,
            Label::Pdf => 62,
            Label::Pebin => 63,
            Label::Pem => 64,
            Label::Perl => 65,
            Label::Php => 66,
            Label::Png => 67,
            Label::Postscript => 68,
            Label::Powershell => 69,
            Label::Ppt => 70,
            Label::Pptx => 71,
            Label::Python => 72,
            Label::Pythonbytecode => 73,
            Label::Rar => 74,
            Label::Rdf => 75,
            Label::Rpm => 76,
            Label::Rst => 77,
            Label::Rtf => 78,
            Label::Ruby => 79,
            Label::Rust => 80,
            Label::Scala => 81,
            Label::Sevenzip => 82,
            Label::Shell => 83,
            Label::Smali => 84,
            Label::Sql => 85,
            Label::Squashfs => 86,
            Label::Svg => 87,
            Label::Swf => 88,
            Label::Symlinktext => 89,
            Label::Tar => 90,
            Label::Tga => 91,
            Label::Tiff => 92,
            Label::Torrent => 93,
            Label::Ttf => 94,
            Label::Txt => 95,
            Label::Unknown => 96,
            Label::Vba => 97,
            Label::Wav => 98,
            Label::Webm => 99,
            Label::Webp => 100,
            Label::Winregistry => 101,
            Label::Wmf => 102,
            Label::Xar => 103,
            Label::Xls => 104,
            Label::Xlsb => 105,
            Label::Xlsx => 106,
            Label::Xml => 107,
            Label::Xpi => 108,
            Label::Xz => 109,
            Label::Yaml => 110,
            Label::Zip => 111,
            Label::Zlibstream => 112,
        }
    }

    /// What is recorded of the label.
    pub open spec fn spec_metadata(self) -> Metadata {
        match self {
            Label::Ai => Metadata { code: "ai", desc: "Adobe Illustrator Artwork", magic: "PDF document", group: "document", mime: "application/pdf", extension: &["ai"], is_text: false },
            Label::Apk => Metadata { code: "apk", desc: "Android package", magic: "Java archive data", group: "executable", mime: "application/vnd.android.package-archive", extension: &["apk"], is_text: false },
            Label::Appleplist => Metadata { code: "appleplist", desc: "Apple property list", magic: "Apple binary property list", group: "application", mime: "application/x-plist", extension: &["bplist", "plist"], is_text: true },
            Label::Asm => Metadata { code: "asm", desc: "Assembly", magic: "assembler source", group: "code", mime: "text/x-asm", extension: &["S", "asm"], is_text: true },
            Label::Asp => Metadata { code: "asp", desc: "ASP source", magic: "HTML document", group: "code", mime: "text/html", extension: &["aspx", "asp"], is_text: true },
            Label::Batch => Metadata { code: "batch", desc: "DOS batch file", magic: "DOS batch file", group: "code", mime: "text/x-msdos-batch", extension: &["bat"], is_text: true },
            Label::Bmp => Metadata { code: "bmp", desc: "BMP image data", magic: "PC bitmap", group: "image", mime: "image/bmp", extension: &["bmp"], is_text: false },
            Label::Bzip => Metadata { code: "bzip", desc: "bzip2 compressed data", magic: "bzip2 compressed data", group: "archive", mime: "application/x-bzip2", extension: &["bz2", "tbz2", "tar.bz2"], is_text: false },
            Label::C => Metadata { code: "c", desc: "C source", magic: "C source", group: "code", mime: "text/x-c", extension: &["c", "cpp", "h", "hpp", "cc"], is_text: true },
            Label::Cab => Metadata { code: "cab", desc: "Microsoft Cabinet archive data", magic: "Microsoft Cabinet archive data", group: "archive", mime: "application/vnd.ms-cab-compressed", extension: &["cab"], is_text: false },
            Label::Cat => Metadata { code: "cat", desc: "Windows Catalog file", magic: "data", group: "application", mime: "application/octet-stream", extension: &["cat"], is_text: false },
            Label::Chm => Metadata { code: "chm", desc: "MS Windows HtmlHelp Data", magic: "MS Windows HtmlHelp Data", group: "application", mime: "application/chm", extension: &["chm"], is_text: false },
            Label::Coff => Metadata { code: "coff", desc: "Intel 80386 COFF", magic: "Intel 80386 COFF", group: "executable", mime: "application/x-coff", extension: &[], is_text: false },
            Label::Crx => Metadata { code: "crx", desc: "Google Chrome extension", magic: "Google Chrome extension", group: "executable", mime: "application/x-chrome-extension", extension: &["crx"], is_text: false },
            Label::Cs => Metadata { code: "cs", desc: "C# source", magic: "ASCII text", group: "code", mime: "text/plain", extension: &["cs"], is_text: true },
            Label::Css => Metadata { code: "css", desc: "CSS source", magic: "ASCII text", group: "code", mime: "text/css", extension: &["css"], is_text: true },
            Label::Csv => Metadata { code: "csv", desc: "CSV document", magic: "CSV text", group: "code", mime: "text/csv", extension: &["csv"], is_text: true },
            Label::Deb => Metadata { code: "deb", desc: "Debian binary package", magic: "Debian binary package", group: "archive", mime: "application/vnd.debian.binary-package", extension: &["deb"], is_text: false },
            Label::Dex => Metadata { code: "dex", desc: "Dalvik dex file", magic: "Dalvik dex file", group: "executable", mime: "application/x-android-dex", extension: &["dex"], is_text: false },
            Label::Dmg => Metadata { code: "dmg", desc: "Apple disk image", magic: "Apple disk image", group: "archive", mime: "application/x-apple-diskimage", extension: &["dmg"], is_text: false },
            Label::Doc => Metadata { code: "doc", desc: "Microsoft Word CDF document", magic: "Composite Document File", group: "document", mime: "application/msword", extension: &["doc"], is_text: false },
            Label::Docx => Metadata { code: "docx", desc: "Microsoft Word 2007+ document", magic: "Microsoft Word 2007+", group: "document", mime: "application/vnd.openxmlformats-officedocument.wordprocessingml.document", extension: &["docx", "docm"], is_text: false },
            Label::Elf => Metadata { code: "elf", desc: "ELF executable", magic: "ELF executable", group: "executable", mime: "application/x-executable-elf", extension: &["elf", "so"], is_text: false },
            Label::Emf => Metadata { code: "emf", desc: "Windows Enhanced Metafile image data", magic: "Windows Enhanced Metafile", group: "application", mime: "application/octet-stream", extension: &["emf"], is_text: false },
            Label::Eml => Metadata { code: "eml", desc: "RFC 822 mail", magic: "RFC 822 mail", group: "text", mime: "message/rfc822", extension: &["eml"], is_text: true },
            Label::Epub => Metadata { code: "epub", desc: "EPUB document", magic: "EPUB document", group: "document", mime: "application/epub+zip", extension: &["epub"], is_text: false },
            Label::Flac => Metadata { code: "flac", desc: "FLAC audio bitstream data", magic: "FLAC audio bitstream data", group: "audio", mime: "audio/flac", extension: &["flac"], is_text: false },
            Label::Gif => Metadata { code: "gif", desc: "GIF image data", magic: "GIF image data", group: "image", mime: "image/gif", extension: &["gif"], is_text: false },
            Label::Go => Metadata { code: "go", desc: "Golang source", magic: "ASCII text", group: "code", mime: "text/x-golang", extension: &["go"], is_text: true },
            Label::Gzip => Metadata { code: "gzip", desc: "gzip compressed data", magic: "gzip compressed data", group: "archive", mime: "application/gzip", extension: &["gz", "gzip", "tgz", "tar.gz"], is_text: false },
            Label::Hlp => Metadata { code: "hlp", desc: "MS Windows help", magic: "MS Windows help", group: "application", mime: "application/winhlp", extension: &["hlp"], is_text: false },
            Label::Html => Metadata { code: "html", desc: "HTML document", magic: "HTML document", group: "code", mime: "text/html", extension: &["html", "htm", "xhtml", "xht"], is_text: true },
            Label::Ico => Metadata { code: "ico", desc: "MS Windows icon resource", magic: "MS Windows icon resource", group: "image", mime: "image/vnd.microsoft.icon", extension: &["ico"], is_text: false },
            Label::Ini => Metadata { code: "ini", desc: "INI configuration file", magic: "Generic INItialization configuration", group: "text", mime: "text/plain", extension: &["ini"], is_text: true },
            Label::Internetshortcut => Metadata { code: "internetshortcut", desc: "MS Windows Internet shortcut", magic: "MS Windows 95 Internet shortcut", group: "application", mime: "application/x-mswinurl", extension: &["url"], is_text: true },
            Label::Iso => Metadata { code: "iso", desc: "ISO 9660 CD-ROM filesystem data", magic: "ISO 9660 CD-ROM filesystem data", group: "archive", mime: "application/x-iso9660-image", extension: &["iso"], is_text: false },
            Label::Jar => Metadata { code: "jar", desc: "Java archive data (JAR)", magic: "Java archive data (JAR)", group: "archive", mime: "application/java-archive", extension: &["jar"], is_text: false },
            Label::Java => Metadata { code: "java", desc: "Java source", magic: "Java source", group: "code", mime: "text/x-java", extension: &["java"], is_text: true },
            Label::Javabytecode => Metadata { code: "javabytecode", desc: "Java compiled bytecode", magic: "compiled Java class data", group: "executable", mime: "application/x-java-applet", extension: &["class"], is_text: false },
            Label::Javascript => Metadata { code: "javascript", desc: "JavaScript source", magic: "JavaScript source", group: "code", mime: "application/javascript", extension: &["js"], is_text: true },
            Label::Jpeg => Metadata { code: "jpeg", desc: "JPEG image data", magic: "JPEG image data", group: "image", mime: "image/jpeg", extension: &["jpg", "jpeg"], is_text: false },
            Label::Json => Metadata { code: "json", desc: "JSON document", magic: "JSON data", group: "code", mime: "application/json", extension: &["json"], is_text: true },
            Label::Latex => Metadata { code: "latex", desc: "LaTeX document", magic: "LaTeX document", group: "text", mime: "text/x-tex", extension: &["tex"], is_text: true },
            Label::Lisp => Metadata { code: "lisp", desc: "Lisp source", magic: "Lisp/Scheme program", group: "code", mime: "text/x-lisp", extension: &["lisp"], is_text: true },
            Label::Lnk => Metadata { code: "lnk", desc: "MS Windows shortcut", magic: "MS Windows shortcut", group: "application", mime: "application/x-ms-shortcut", extension: &["lnk"], is_text: false },
            Label::M3u => Metadata { code: "m3u", desc: "M3U playlist", magic: "M3U playlist", group: "application", mime: "text/plain", extension: &["m3u8", "m3u"], is_text: false },
            Label::Macho => Metadata { code: "macho", desc: "Mach-O executable", magic: "Mach-O executable", group: "executable", mime: "application/x-mach-o", extension: &[], is_text: false },
            Label::Makefile => Metadata { code: "makefile", desc: "Makefile source", magic: "makefile script", group: "code", mime: "text/x-makefile", extension: &["=Makefile"], is_text: true },
            Label::Markdown => Metadata { code: "markdown", desc: "Markdown document", magic: "ASCII text", group: "text", mime: "text/markdown", extension: &["md"], is_text: true },
            Label::Mht => Metadata { code: "mht", desc: "MHTML document", magic: "HTML document", group: "code", mime: "application/x-mimearchive", extension: &["mht"], is_text: true },
            Label::Mp3 => Metadata { code: "mp3", desc: "MP3 media file", magic: "Audio file with ID3", group: "audio", mime: "audio/mpeg", extension: &["mp3"], is_text: false },
            Label::Mp4 => Metadata { code: "mp4", desc: "MP4 media file", magic: "ISO Media", group: "video", mime: "video/mp4", extension: &["mov", "mp4"], is_text: false },
            Label::Mscompress => Metadata { code: "mscompress", desc: "MS Compress archive data", magic: "MS Compress archive data", group: "archive", mime: "application/x-ms-compress-szdd", extension: &[], is_text: false },
            Label::Msi => Metadata { code: "msi", desc: "Microsoft Installer file", magic: "Composite Document File", group: "archive", mime: "application/x-msi", extension: &["msi"], is_text: false },
            Label::Mum => Metadata { code: "mum", desc: "Windows Update Package file", magic: "XML document", group: "application", mime: "text/xml", extension: &["mum"], is_text: true },
            Label::Odex => Metadata { code: "odex", desc: "ODEX ELF executable", magic: "ELF executable", group: "executable", mime: "application/x-executable-elf", extension: &["odex"], is_text: false },
            Label::Odp => Metadata { code: "odp", desc: "OpenDocument Presentation", magic: "OpenDocument Presentation", group: "document", mime: "application/vnd.oasis.opendocument.presentation", extension: &["odp"], is_text: false },
            Label::Ods => Metadata { code: "ods", desc: "OpenDocument Spreadsheet", magic: "OpenDocument Spreadsheet", group: "document", mime: "application/vnd.oasis.opendocument.spreadsheet", extension: &["ods"], is_text: false },
            Label::Odt => Metadata { code: "odt", desc: "OpenDocument Text", magic: "OpenDocument Text", group: "document", mime: "application/vnd.oasis.opendocument.text", extension: &["odt"], is_text: false },
            Label::Ogg => Metadata { code: "ogg", desc: "Ogg data", magic: "Ogg data", group: "audio", mime: "audio/ogg", extension: &["ogg"], is_text: false },
            Label::Outlook => Metadata { code: "outlook", desc: "MS Outlook Message", magic: "CDFV2 Microsoft Outlook Message", group: "application", mime: "application/vnd.ms-outlook", extension: &[], is_text: false },
            Label::Pcap => Metadata { code: "pcap", desc: "pcap capture file", magic: "pcap capture file", group: "application", mime: "application/vnd.tcpdump.pcap", extension: &["pcap", "pcapng"], is_text: false },
            Label::Pdf => Metadata { code: "pdf", desc: "PDF document", magic: "PDF document", group: "document", mime: "application/pdf", extension: &["pdf"], is_text: false },
            Label::Pebin => Metadata { code: "pebin", desc: "PE executable", magic: "PE executable", group: "executable", mime: "application/x-dosexec", extension: &["exe", "dll", "sys"], is_text: false },
            Label::Pem => Metadata { code: "pem", desc: "PEM certificate", magic: "PEM certificate", group: "application", mime: "application/x-pem-file", extension: &["pem", "pub"], is_text: true },
            Label::Perl => Metadata { code: "perl", desc: "Perl source", magic: "Perl script text executable", group: "code", mime: "text/x-perl", extension: &["pl"], is_text: true },
            Label::Php => Metadata { code: "php", desc: "PHP source", magic: "PHP script", group: "code", mime: "text/x-php", extension: &["php"], is_text: true },
            Label::Png => Metadata { code: "png", desc: "PNG image data", magic: "PNG image data", group: "image", mime: "image/png", extension: &["png"], is_text: false },
            Label::Postscript => Metadata { code: "postscript", desc: "PostScript document", magic: "PostScript document text", group: "document", mime: "application/postscript", extension: &["ps"], is_text: false },
            Label::Powershell => Metadata { code: "powershell", desc: "Powershell source", magic: "a powershell script", group: "code", mime: "application/x-powershell", extension: &["ps1"], is_text: true },
            Label::Ppt => Metadata { code: "ppt", desc: "Microsoft PowerPoint CDF document", magic: "Composite Document File", group: "document", mime: "application/vnd.ms-powerpoint", extension: &["ppt"], is_text: false },
            Label::Pptx => Metadata { code: "pptx", desc: "Microsoft PowerPoint 2007+ document", magic: "Microsoft PowerPoint 2007+", group: "document", mime: "application/vnd.openxmlformats-officedocument.presentationml.presentation", extension: &["pptx", "pptm"], is_text: false },
            Label::Python => Metadata { code: "python", desc: "Python source", magic: "Python script", group: "code", mime: "text/x-python", extension: &["py"], is_text: true },
            Label::Pythonbytecode => Metadata { code: "pythonbytecode", desc: "Python compiled bytecode", magic: "python byte-compiled", group: "executable", mime: "application/x-bytecode.python", extension: &["pyc", "pyo"], is_text: false },
            Label::Rar => Metadata { code: "rar", desc: "RAR archive data", magic: "RAR archive data", group: "archive", mime: "application/x-rar", extension: &["rar"], is_text: false },
            Label::Rdf => Metadata { code: "rdf", desc: "Resource Description Framework document (RDF)", magic: "XML document", group: "text", mime: "application/rdf+xml", extension: &["rdf"], is_text: true },
            Label::Rpm => Metadata { code: "rpm", desc: "RedHat Package Manager archive (RPM)", magic: "RPM", group: "archive", mime: "application/x-rpm", extension: &["rpm"], is_text: false },
            Label::Rst => Metadata { code: "rst", desc: "ReStructuredText document", magic: "ReStructuredText file", group: "text", mime: "text/x-rst", extension: &["rst"], is_text: true },
            Label::Rtf => Metadata { code: "rtf", desc: "Rich Text Format document", magic: "Rich Text Format data", group: "text", mime: "text/rtf", extension: &["rtf"], is_text: true },
            Label::Ruby => Metadata { code: "ruby", desc: "Ruby source", magic: "Ruby script", group: "code", mime: "application/x-ruby", extension: &["rb"], is_text: true },
            Label::Rust => Metadata { code: "rust", desc: "Rust source", magic: "ASCII text", group: "code", mime: "application/x-rust", extension: &["rs"], is_text: true },
            Label::Scala => Metadata { code: "scala", desc: "Scala source", magic: "ASCII text", group: "code", mime: "application/x-scala", extension: &["scala"], is_text: true },
            Label::Sevenzip => Metadata { code: "sevenzip", desc: "7-zip archive data", magic: "7-zip archive data", group: "archive", mime: "application/x-7z-compressed", extension: &["7z"], is_text: false },
            Label::Shell => Metadata { code: "shell", desc: "Shell script", magic: "shell script", group: "code", mime: "text/x-shellscript", extension: &["sh"], is_text: true },
            Label::Smali => Metadata { code: "smali", desc: "Smali source", magic: "ASCII text", group: "code", mime: "application/x-smali", extension: &["smali"], is_text: true },
            Label::Sql => Metadata { code: "sql", desc: "SQL source", magic: "ASCII text", group: "code", mime: "application/x-sql", extension: &["sql"], is_text: true },
            Label::Squashfs => Metadata { code: "squashfs", desc: "Squash filesystem", magic: "Squashfs filesystem", group: "archive", mime: "application/octet-stream", extension: &[], is_text: false },
            Label::Svg => Metadata { code: "svg", desc: "SVG Scalable Vector Graphics image data", magic: "SVG Scalable Vector Graphics image", group: "image", mime: "image/svg+xml", extension: &["svg"], is_text: true },
            Label::Swf => Metadata { code: "swf", desc: "Macromedia Flash data", magic: "Macromedia Flash data", group: "executable", mime: "application/x-shockwave-flash", extension: &["swf"], is_text: false },
            Label::Symlinktext => Metadata { code: "symlinktext", desc: "Symbolic link (textual representation)", magic: "ASCII text", group: "application", mime: "text/plain", extension: &[], is_text: true },
            Label::Tar => Metadata { code: "tar", desc: "POSIX tar archive", magic: "POSIX tar archive", group: "archive", mime: "application/x-tar", extension: &["tar"], is_text: false },
            Label::Tga => Metadata { code: "tga", desc: "Targa image data", magic: "Targa image data", group: "image", mime: "image/x-tga", extension: &["tga"], is_text: false },
            Label::Tiff => Metadata { code: "tiff", desc: "TIFF image data", magic: "TIFF image data", group: "image", mime: "image/tiff", extension: &["tiff", "tif"], is_text: false },
            Label::Torrent => Metadata { code: "torrent", desc: "BitTorrent file", magic: "BitTorrent file", group: "application", mime: "application/x-bittorrent", extension: &["torrent"], is_text: false },
            Label::Ttf => Metadata { code: "ttf", desc: "TrueType Font data", magic: "TrueType Font data", group: "font", mime: "font/sfnt", extension: &["ttf"], is_text: false },
            Label::Txt => Metadata { code: "txt", desc: "Generic text document", magic: "ASCII text", group: "text", mime: "text/plain", extension: &["txt"], is_text: true },
            Label::Unknown => Metadata { code: "unknown", desc: "Unknown binary data", magic: "data", group: "unknown", mime: "application/octet-stream", extension: &[], is_text: false },
            Label::Vba => Metadata { code: "vba", desc: "MS Visual Basic source (VBA)", magic: "ASCII text", group: "code", mime: "text/vbscript", extension: &["vbs"], is_text: true },
            Label::Wav => Metadata { code: "wav", desc: "Waveform Audio file (WAV)", magic: "RIFF data", group: "audio", mime: "audio/x-wav", extension: &["wav"], is_text: false },
            Label::Webm => Metadata { code: "webm", desc: "WebM data", magic: "WebM", group: "video", mime: "video/webm", extension: &["webm"], is_text: false },
            Label::Webp => Metadata { code: "webp", desc: "WebP data", magic: "RIFF data", group: "image", mime: "image/webp", extension: &["webp"], is_text: false },
            Label::Winregistry => Metadata { code: "winregistry", desc: "Windows Registry text", magic: "Windows Registry text", group: "application", mime: "text/x-ms-regedit", extension: &["reg"], is_text: true },
            Label::Wmf => Metadata { code: "wmf", desc: "Windows metafile", magic: "Windows metafile", group: "image", mime: "image/wmf", extension: &["wmf"], is_text: false },
            Label::Xar => Metadata { code: "xar", desc: "XAR archive compressed data", magic: "xar archive compressed", group: "archive", mime: "application/x-xar", extension: &["pkg", "xar"], is_text: false },
            Label::Xls => Metadata { code: "xls", desc: "Microsoft Excel CDF document", magic: "Composite Document File", group: "document", mime: "application/vnd.ms-excel", extension: &["xls"], is_text: false },
            Label::Xlsb => Metadata { code: "xlsb", desc: "Microsoft Excel 2007+ document (binary format)", magic: "Microsoft Excel 2007+", group: "document", mime: "application/vnd.openxmlformats-officedocument.spreadsheetml.sheet", extension: &["xlsb"], is_text: false },
            Label::Xlsx => Metadata { code: "xlsx", desc: "Microsoft Excel 2007+ document", magic: "Microsoft Excel 2007+", group: "document", mime: "application/vnd.openxmlformats-officedocument.spreadsheetml.sheet", extension: &["xlsx", "xlsm"], is_text: false },
            Label::Xml => Metadata { code: "xml", desc: "XML document", magic: "XML document", group: "code", mime: "text/xml", extension: &["xml"], is_text: true },
            Label::Xpi => Metadata { code: "xpi", desc: "Compressed installation archive (XPI)", magic: "Zip archive data", group: "archive", mime: "application/zip", extension: &["xpi"], is_text: false },
            Label::Xz => Metadata { code: "xz", desc: "XZ compressed data", magic: "XZ compressed data", group: "archive", mime: "application/x-xz", extension: &["xz"], is_text: false },
            Label::Yaml => Metadata { code: "yaml", desc: "YAML source", magic: "ASCII text", group: "code", mime: "application/x-yaml", extension: &["yml", "yaml"], is_text: true },
            Label::Zip => Metadata { code: "zip", desc: "Zip archive data", magic: "Zip archive data", group: "archive", mime: "application/zip", extension: &["zip"], is_text: false },
            Label::Zlibstream => Metadata { code: "zlibstream", desc: "zlib compressed data", magic: "zlib compressed data", group: "application", mime: "application/zlib", extension: &[], is_text: false },
        }
    }

    /// The label at position `i`.
    pub fn from_index(i: usize) -> (r: Label)
        requires
            i < LABEL_COUNT,
        ensures
            r.spec_index() == i,
    {
        match i {
            0 => Label::Ai,
            1 => Label::Apk,
            2 => Label::Appleplist,
            3 => Label::Asm,
            4 => Label::Asp,
            5 => Label::Batch,
            6 => Label::Bmp,
            7 => Label::Bzip,
            8 => Label::C,
            9 => Label::Cab,
            10 => Label::Cat,
            11 => Label::Chm,
            12 => Label::Coff,
            13 => Label::Crx,
            14 => Label::Cs,
            15 => Label::Css,
            16 => Label::Csv,
            17 => Label::Deb,
            18 => Label::Dex,
            19 => Label::Dmg,
            20 => Label::Doc,
            21 => Label::Docx,
            22 => Label::Elf,
            23 => Label::Emf,
            24 => Label::Eml,
            25 => Label::Epub,
            26 => Label::Flac,
            27 => Label::Gif,
            28 => Label::Go,
            29 => Label::Gzip,
            30 => Label::Hlp,
            31 => Label::Html,
            32 => Label::Ico,
            33 => Label::Ini,
            34 => Label::Internetshortcut,
            35 => Label::Iso,
            36 => Label::Jar,
            37 => Label::Java,
            38 => Label::Javabytecode,
            39 => Label::Javascript,
            40 => Label::Jpeg,
            41 => Label::Json,
            42 => Label::Latex,
            43 => Label::Lisp,
            44 => Label::Lnk,
            45 => Label::M3u,
            46 => Label::Macho,
            47 => Label::Makefile,
            48 => Label::Markdown,
            49 => Label::Mht,
            50 => Label::Mp3,
            51 => Label::Mp4,
            52 => Label::Mscompress,
            53 => Label::Msi,
            54 => Label::Mum,
            55 => Label::Odex,
            56 => Label::Odp,
            57 => Label::Ods,
            58 => Label::Odt,
            59 => Label::Ogg,
            60 => Label::Outlook,
            61 => Label::Pcap,
            62 => Label::Pdf,
            63 => Label::Pebin,
            64 => Label::Pem,
            65 => Label::Perl,
            66 => Label::Php,
            67 => Label::Png,
            68 => Label::Postscript,
            69 => Label::Powershell,
            70 => Label::Ppt,
            71 => Label::Pptx,
            72 => Label::Python,
            73 => Label::Pythonbytecode,
            74 => Label::Rar,
            75 => Label::Rdf,
            76 => Label::Rpm,
            77 => Label::Rst,
            78 => Label::Rtf,
            79 => Label::Ruby,
            80 => Label::Rust,
            81 => Label::Scala,
            82 => Label::Sevenzip,
            83 => Label::Shell,
            84 => Label::Smali,
            85 => Label::Sql,
            86 => Label::Squashfs,
            87 => Label::Svg,
            88 => Label::Swf,
            89 => Label::Symlinktext,
            90 => Label::Tar,
            91 => Label::Tga,
            92 => Label::Tiff,
            93 => Label::Torrent,
            94 => Label::Ttf,
            95 => Label::Txt,
            96 => Label::Unknown,
            97 => Label::Vba,
            98 => Label::Wav,
            99 => Label::Webm,
            100 => Label::Webp,
            101 => Label::Winregistry,
            102 => Label::Wmf,
            103 => Label::Xar,
            104 => Label::Xls,
            105 => Label::Xlsb,
            106 => Label::Xlsx,
            107 => Label::Xml,
            108 => Label::Xpi,
            109 => Label::Xz,
            110 => Label::Yaml,
            111 => Label::Zip,
            _ => Label::Zlibstream,
        }
    }

    /// What is recorded of the label.
    pub fn metadata(self) -> (r: Metadata)
        ensures
            r == self.spec_metadata(),
    {
        match self {
            Label::Ai => Metadata { code: "ai", desc: "Adobe Illustrator Artwork", magic: "PDF document", group: "document", mime: "application/pdf", extension: &["ai"], is_text: false },
            Label::Apk => Metadata { code: "apk", desc: "Android package", magic: "Java archive data", group: "executable", mime: "application/vnd.android.package-archive", extension: &["apk"], is_text: false },
            Label::Appleplist => Metadata { code: "appleplist", desc: "Apple property list", magic: "Apple binary property list", group: "application", mime: "application/x-plist", extension: &["bplist", "plist"], is_text: true },
            Label::Asm => Metadata { code: "asm", desc: "Assembly", magic: "assembler source", group: "code", mime: "text/x-asm", extension: &["S", "asm"], is_text: true },
            Label::Asp => Metadata { code: "asp", desc: "ASP source", magic: "HTML document", group: "code", mime: "text/html", extension: &["aspx", "asp"], is_text: true },
            Label::Batch => Metadata { code: "batch", desc: "DOS batch file", magic: "DOS batch file", group: "code", mime: "text/x-msdos-batch", extension: &["bat"], is_text: true },
            Label::Bmp => Metadata { code: "bmp", desc: "BMP image data", magic: "PC bitmap", group: "image", mime: "image/bmp", extension: &["bmp"], is_text: false },
            Label::Bzip => Metadata { code: "bzip", desc: "bzip2 compressed data", magic: "bzip2 compressed data", group: "archive", mime: "application/x-bzip2", extension: &["bz2", "tbz2", "tar.bz2"], is_text: false },
            Label::C => Metadata { code: "c", desc: "C source", magic: "C source", group: "code", mime: "text/x-c", extension: &["c", "cpp", "h", "hpp", "cc"], is_text: true },
            Label::Cab => Metadata { code: "cab", desc: "Microsoft Cabinet archive data", magic: "Microsoft Cabinet archive data", group: "archive", mime: "application/vnd.ms-cab-compressed", extension: &["cab"], is_text: false },
            Label::Cat => Metadata { code: "cat", desc: "Windows Catalog file", magic: "data", group: "application", mime: "application/octet-stream", extension: &["cat"], is_text: false },
            Label::Chm => Metadata { code: "chm", desc: "MS Windows HtmlHelp Data", magic: "MS Windows HtmlHelp Data", group: "application", mime: "application/chm", extension: &["chm"], is_text: false },
            Label::Coff => Metadata { code: "coff", desc: "Intel 80386 COFF", magic: "Intel 80386 COFF", group: "executable", mime: "application/x-coff", extension: &[], is_text: false },
            Label::Crx => Metadata { code: "crx", desc: "Google Chrome extension", magic: "Google Chrome extension", group: "executable", mime: "application/x-chrome-extension", extension: &["crx"], is_text: false },
            Label::Cs => Metadata { code: "cs", desc: "C# source", magic: "ASCII text", group: "code", mime: "text/plain", extension: &["cs"], is_text: true },
            Label::Css => Metadata { code: "css", desc: "CSS source", magic: "ASCII text", group: "code", mime: "text/css", extension: &["css"], is_text: true },
            Label::Csv => Metadata { code: "csv", desc: "CSV document", magic: "CSV text", group: "code", mime: "text/csv", extension: &["csv"], is_text: true },
            Label::Deb => Metadata { code: "deb", desc: "Debian binary package", magic: "Debian binary package", group: "archive", mime: "application/vnd.debian.binary-package", extension: &["deb"], is_text: false },
            Label::Dex => Metadata { code: "dex", desc: "Dalvik dex file", magic: "Dalvik dex file", group: "executable", mime: "application/x-android-dex", extension: &["dex"], is_text: false },
            Label::Dmg => Metadata { code: "dmg", desc: "Apple disk image", magic: "Apple disk image", group: "archive", mime: "application/x-apple-diskimage", extension: &["dmg"], is_text: false },
            Label::Doc => Metadata { code: "doc", desc: "Microsoft Word CDF document", magic: "Composite Document File", group: "document", mime: "application/msword", extension: &["doc"], is_text: false },
            Label::Docx => Metadata { code: "docx", desc: "Microsoft Word 2007+ document", magic: "Microsoft Word 2007+", group: "document", mime: "application/vnd.openxmlformats-officedocument.wordprocessingml.document", extension: &["docx", "docm"], is_text: false },
            Label::Elf => Metadata { code: "elf", desc: "ELF executable", magic: "ELF executable", group: "executable", mime: "application/x-executable-elf", extension: &["elf", "so"], is_text: false },
            Label::Emf => Metadata { code: "emf", desc: "Windows Enhanced Metafile image data", magic: "Windows Enhanced Metafile", group: "application", mime: "application/octet-stream", extension: &["emf"], is_text: false },
            Label::Eml => Metadata { code: "eml", desc: "RFC 822 mail", magic: "RFC 822 mail", group: "text", mime: "message/rfc822", extension: &["eml"], is_text: true },
            Label::Epub => Metadata { code: "epub", desc: "EPUB document", magic: "EPUB document", group: "document", mime: "application/epub+zip", extension: &["epub"], is_text: false },
            Label::Flac => Metadata { code: "flac", desc: "FLAC audio bitstream data", magic: "FLAC audio bitstream data", group: "audio", mime: "audio/flac", extension: &["flac"], is_text: false },
            Label::Gif => Metadata { code: "gif", desc: "GIF image data", magic: "GIF image data", group: "image", mime: "image/gif", extension: &["gif"], is_text: false },
            Label::Go => Metadata { code: "go", desc: "Golang source", magic: "ASCII text", group: "code", mime: "text/x-golang", extension: &["go"], is_text: true },
            Label::Gzip => Metadata { code: "gzip", desc: "gzip compressed data", magic: "gzip compressed data", group: "archive", mime: "application/gzip", extension: &["gz", "gzip", "tgz", "tar.gz"], is_text: false },
            Label::Hlp => Metadata { code: "hlp", desc: "MS Windows help", magic: "MS Windows help", group: "application", mime: "application/winhlp", extension: &["hlp"], is_text: false },
            Label::Html => Metadata { code: "html", desc: "HTML document", magic: "HTML document", group: "code", mime: "text/html", extension: &["html", "htm", "xhtml", "xht"], is_text: true },
            Label::Ico => Metadata { code: "ico", desc: "MS Windows icon resource", magic: "MS Windows icon resource", group: "image", mime: "image/vnd.microsoft.icon", extension: &["ico"], is_text: false },
            Label::Ini => Metadata { code: "ini", desc: "INI configuration file", magic: "Generic INItialization configuration", group: "text", mime: "text/plain", extension: &["ini"], is_text: true },
            Label::Internetshortcut => Metadata { code: "internetshortcut", desc: "MS Windows Internet shortcut", magic: "MS Windows 95 Internet shortcut", group: "application", mime: "application/x-mswinurl", extension: &["url"], is_text: true },
            Label::Iso => Metadata { code: "iso", desc: "ISO 9660 CD-ROM filesystem data", magic: "ISO 9660 CD-ROM filesystem data", group: "archive", mime: "application/x-iso9660-image", extension: &["iso"], is_text: false },
            Label::Jar => Metadata { code: "jar", desc: "Java archive data (JAR)", magic: "Java archive data (JAR)", group: "archive", mime: "application/java-archive", extension: &["jar"], is_text: false },
            Label::Java => Metadata { code: "java", desc: "Java source", magic: "Java source", group: "code", mime: "text/x-java", extension: &["java"], is_text: true },
            Label::Javabytecode => Metadata { code: "javabytecode", desc: "Java compiled bytecode", magic: "compiled Java class data", group: "executable", mime: "application/x-java-applet", extension: &["class"], is_text: false },
            Label::Javascript => Metadata { code: "javascript", desc: "JavaScript source", magic: "JavaScript source", group: "code", mime: "application/javascript", extension: &["js"], is_text: true },
            Label::Jpeg => Metadata { code: "jpeg", desc: "JPEG image data", magic: "JPEG image data", group: "image", mime: "image/jpeg", extension: &["jpg", "jpeg"], is_text: false },
            Label::Json => Metadata { code: "json", desc: "JSON document", magic: "JSON data", group: "code", mime: "application/json", extension: &["json"], is_text: true },
            Label::Latex => Metadata { code: "latex", desc: "LaTeX document", magic: "LaTeX document", group: "text", mime: "text/x-tex", extension: &["tex"], is_text: true },
            Label::Lisp => Metadata { code: "lisp", desc: "Lisp source", magic: "Lisp/Scheme program", group: "code", mime: "text/x-lisp", extension: &["lisp"], is_text: true },
            Label::Lnk => Metadata { code: "lnk", desc: "MS Windows shortcut", magic: "MS Windows shortcut", group: "application", mime: "application/x-ms-shortcut", extension: &["lnk"], is_text: false },
            Label::M3u => Metadata { code: "m3u", desc: "M3U playlist", magic: "M3U playlist", group: "application", mime: "text/plain", extension: &["m3u8", "m3u"], is_text: false },
            Label::Macho => Metadata { code: "macho", desc: "Mach-O executable", magic: "Mach-O executable", group: "executable", mime: "application/x-mach-o", extension: &[], is_text: false },
            Label::Makefile => Metadata { code: "makefile", desc: "Makefile source", magic: "makefile script", group: "code", mime: "text/x-makefile", extension: &["=Makefile"], is_text: true },
            Label::Markdown => Metadata { code: "markdown", desc: "Markdown document", magic: "ASCII text", group: "text", mime: "text/markdown", extension: &["md"], is_text: true },
            Label::Mht => Metadata { code: "mht", desc: "MHTML document", magic: "HTML document", group: "code", mime: "application/x-mimearchive", extension: &["mht"], is_text: true },
            Label::Mp3 => Metadata { code: "mp3", desc: "MP3 media file", magic: "Audio file with ID3", group: "audio", mime: "audio/mpeg", extension: &["mp3"], is_text: false },
            Label::Mp4 => Metadata { code: "mp4", desc: "MP4 media file", magic: "ISO Media", group: "video", mime: "video/mp4", extension: &["mov", "mp4"], is_text: false },
            Label::Mscompress => Metadata { code: "mscompress", desc: "MS Compress archive data", magic: "MS Compress archive data", group: "archive", mime: "application/x-ms-compress-szdd", extension: &[], is_text: false },
            Label::Msi => Metadata { code: "msi", desc: "Microsoft Installer file", magic: "Composite Document File", group: "archive", mime: "application/x-msi", extension: &["msi"], is_text: false },
            Label::Mum => Metadata { code: "mum", desc: "Windows Update Package file", magic: "XML document", group: "application", mime: "text/xml", extension: &["mum"], is_text: true },
            Label::Odex => Metadata { code: "odex", desc: "ODEX ELF executable", magic: "ELF executable", group: "executable", mime: "application/x-executable-elf", extension: &["odex"], is_text: false },
            Label::Odp => Metadata { code: "odp", desc: "OpenDocument Presentation", magic: "OpenDocument Presentation", group: "document", mime: "application/vnd.oasis.opendocument.presentation", extension: &["odp"], is_text: false },
            Label::Ods => Metadata { code: "ods", desc: "OpenDocument Spreadsheet", magic: "OpenDocument Spreadsheet", group: "document", mime: "application/vnd.oasis.opendocument.spreadsheet", extension: &["ods"], is_text: false },
            Label::Odt => Metadata { code: "odt", desc: "OpenDocument Text", magic: "OpenDocument Text", group: "document", mime: "application/vnd.oasis.opendocument.text", extension: &["odt"], is_text: false },
            Label::Ogg => Metadata { code: "ogg", desc: "Ogg data", magic: "Ogg data", group: "audio", mime: "audio/ogg", extension: &["ogg"], is_text: false },
            Label::Outlook => Metadata { code: "outlook", desc: "MS Outlook Message", magic: "CDFV2 Microsoft Outlook Message", group: "application", mime: "application/vnd.ms-outlook", extension: &[], is_text: false },
            Label::Pcap => Metadata { code: "pcap", desc: "pcap capture file", magic: "pcap capture file", group: "application", mime: "application/vnd.tcpdump.pcap", extension: &["pcap", "pcapng"], is_text: false },
            Label::Pdf => Metadata { code: "pdf", desc: "PDF document", magic: "PDF document", group: "document", mime: "application/pdf", extension: &["pdf"], is_text: false },
            Label::Pebin => Metadata { code: "pebin", desc: "PE executable", magic: "PE executable", group: "executable", mime: "application/x-dosexec", extension: &["exe", "dll", "sys"], is_text: false },
            Label::Pem => Metadata { code: "pem", desc: "PEM certificate", magic: "PEM certificate", group: "application", mime: "application/x-pem-file", extension: &["pem", "pub"], is_text: true },
            Label::Perl => Metadata { code: "perl", desc: "Perl source", magic: "Perl script text executable", group: "code", mime: "text/x-perl", extension: &["pl"], is_text: true },
            Label::Php => Metadata { code: "php", desc: "PHP source", magic: "PHP script", group: "code", mime: "text/x-php", extension: &["php"], is_text: true },
            Label::Png => Metadata { code: "png", desc: "PNG image data", magic: "PNG image data", group: "image", mime: "image/png", extension: &["png"], is_text: false },
            Label::Postscript => Metadata { code: "postscript", desc: "PostScript document", magic: "PostScript document text", group: "document", mime: "application/postscript", extension: &["ps"], is_text: false },
            Label::Powershell => Metadata { code: "powershell", desc: "Powershell source", magic: "a powershell script", group: "code", mime: "application/x-powershell", extension: &["ps1"], is_text: true },
            Label::Ppt => Metadata { code: "ppt", desc: "Microsoft PowerPoint CDF document", magic: "Composite Document File", group: "document", mime: "application/vnd.ms-powerpoint", extension: &["ppt"], is_text: false },
            Label::Pptx => Metadata { code: "pptx", desc: "Microsoft PowerPoint 2007+ document", magic: "Microsoft PowerPoint 2007+", group: "document", mime: "application/vnd.openxmlformats-officedocument.presentationml.presentation", extension: &["pptx", "pptm"], is_text: false },
            Label::Python => Metadata { code: "python", desc: "Python source", magic: "Python script", group: "code", mime: "text/x-python", extension: &["py"], is_text: true },
            Label::Pythonbytecode => Metadata { code: "pythonbytecode", desc: "Python compiled bytecode", magic: "python byte-compiled", group: "executable", mime: "application/x-bytecode.python", extension: &["pyc", "pyo"], is_text: false },
            Label::Rar => Metadata { code: "rar", desc: "RAR archive data", magic: "RAR archive data", group: "archive", mime: "application/x-rar", extension: &["rar"], is_text: false },
            Label::Rdf => Metadata { code: "rdf", desc: "Resource Description Framework document (RDF)", magic: "XML document", group: "text", mime: "application/rdf+xml", extension: &["rdf"], is_text: true },
            Label::Rpm => Metadata { code: "rpm", desc: "RedHat Package Manager archive (RPM)", magic: "RPM", group: "archive", mime: "application/x-rpm", extension: &["rpm"], is_text: false },
            Label::Rst => Metadata { code: "rst", desc: "ReStructuredText document", magic: "ReStructuredText file", group: "text", mime: "text/x-rst", extension: &["rst"], is_text: true },
            Label::Rtf => Metadata { code: "rtf", desc: "Rich Text Format document", magic: "Rich Text Format data", group: "text", mime: "text/rtf", extension: &["rtf"], is_text: true },
            Label::Ruby => Metadata { code: "ruby", desc: "Ruby source", magic: "Ruby script", group: "code", mime: "application/x-ruby", extension: &["rb"], is_text: true },
            Label::Rust => Metadata { code: "rust", desc: "Rust source", magic: "ASCII text", group: "code", mime: "application/x-rust", extension: &["rs"], is_text: true },
            Label::Scala => Metadata { code: "scala", desc: "Scala source", magic: "ASCII text", group: "code", mime: "application/x-scala", extension: &["scala"], is_text: true },
            Label::Sevenzip => Metadata { code: "sevenzip", desc: "7-zip archive data", magic: "7-zip archive data", group: "archive", mime: "application/x-7z-compressed", extension: &["7z"], is_text: false },
            Label::Shell => Metadata { code: "shell", desc: "Shell script", magic: "shell script", group: "code", mime: "text/x-shellscript", extension: &["sh"], is_text: true },
            Label::Smali => Metadata { code: "smali", desc: "Smali source", magic: "ASCII text", group: "code", mime: "application/x-smali", extension: &["smali"], is_text: true },
            Label::Sql => Metadata { code: "sql", desc: "SQL source", magic: "ASCII text", group: "code", mime: "application/x-sql", extension: &["sql"], is_text: true },
            Label::Squashfs => Metadata { code: "squashfs", desc: "Squash filesystem", magic: "Squashfs filesystem", group: "archive", mime: "application/octet-stream", extension: &[], is_text: false },
            Label::Svg => Metadata { code: "svg", desc: "SVG Scalable Vector Graphics image data", magic: "SVG Scalable Vector Graphics image", group: "image", mime: "image/svg+xml", extension: &["svg"], is_text: true },
            Label::Swf => Metadata { code: "swf", desc: "Macromedia Flash data", magic: "Macromedia Flash data", group: "executable", mime: "application/x-shockwave-flash", extension: &["swf"], is_text: false },
            Label::Symlinktext => Metadata { code: "symlinktext", desc: "Symbolic link (textual representation)", magic: "ASCII text", group: "application", mime: "text/plain", extension: &[], is_text: true },
            Label::Tar => Metadata { code: "tar", desc: "POSIX tar archive", magic: "POSIX tar archive", group: "archive", mime: "application/x-tar", extension: &["tar"], is_text: false },
            Label::Tga => Metadata { code: "tga", desc: "Targa image data", magic: "Targa image data", group: "image", mime: "image/x-tga", extension: &["tga"], is_text: false },
            Label::Tiff => Metadata { code: "tiff", desc: "TIFF image data", magic: "TIFF image data", group: "image", mime: "image/tiff", extension: &["tiff", "tif"], is_text: false },
            Label::Torrent => Metadata { code: "torrent", desc: "BitTorrent file", magic: "BitTorrent file", group: "application", mime: "application/x-bittorrent", extension: &["torrent"], is_text: false },
            Label::Ttf => Metadata { code: "ttf", desc: "TrueType Font data", magic: "TrueType Font data", group: "font", mime: "font/sfnt", extension: &["ttf"], is_text: false },
            Label::Txt => Metadata { code: "txt", desc: "Generic text document", magic: "ASCII text", group: "text", mime: "text/plain", extension: &["txt"], is_text: true },
            Label::Unknown => Metadata { code: "unknown", desc: "Unknown binary data", magic: "data", group: "unknown", mime: "application/octet-stream", extension: &[], is_text: false },
            Label::Vba => Metadata { code: "vba", desc: "MS Visual Basic source (VBA)", magic: "ASCII text", group: "code", mime: "text/vbscript", extension: &["vbs"], is_text: true },
            Label::Wav => Metadata { code: "wav", desc: "Waveform Audio file (WAV)", magic: "RIFF data", group: "audio", mime: "audio/x-wav", extension: &["wav"], is_text: false },
            Label::Webm => Metadata { code: "webm", desc: "WebM data", magic: "WebM", group: "video", mime: "video/webm", extension: &["webm"], is_text: false },
            Label::Webp => Metadata { code: "webp", desc: "WebP data", magic: "RIFF data", group: "image", mime: "image/webp", extension: &["webp"], is_text: false },
            Label::Winregistry => Metadata { code: "winregistry", desc: "Windows Registry text", magic: "Windows Registry text", group: "application", mime: "text/x-ms-regedit", extension: &["reg"], is_text: true },
            Label::Wmf => Metadata { code: "wmf", desc: "Windows metafile", magic: "Windows metafile", group: "image", mime: "image/wmf", extension: &["wmf"], is_text: false },
            Label::Xar => Metadata { code: "xar", desc: "XAR archive compressed data", magic: "xar archive compressed", group: "archive", mime: "application/x-xar", extension: &["pkg", "xar"], is_text: false },
            Label::Xls => Metadata { code: "xls", desc: "Microsoft Excel CDF document", magic: "Composite Document File", group: "document", mime: "application/vnd.ms-excel", extension: &["xls"], is_text: false },
            Label::Xlsb => Metadata { code: "xlsb", desc: "Microsoft Excel 2007+ document (binary format)", magic: "Microsoft Excel 2007+", group: "document", mime: "application/vnd.openxmlformats-officedocument.spreadsheetml.sheet", extension: &["xlsb"], is_text: false },
            Label::Xlsx => Metadata { code: "xlsx", desc: "Microsoft Excel 2007+ document", magic: "Microsoft Excel 2007+", group: "document", mime: "application/vnd.openxmlformats-officedocument.spreadsheetml.sheet", extension: &["xlsx", "xlsm"], is_text: false },
            Label::Xml => Metadata { code: "xml", desc: "XML document", magic: "XML document", group: "code", mime: "text/xml", extension: &["xml"], is_text: true },
            Label::Xpi => Metadata { code: "xpi", desc: "Compressed installation archive (XPI)", magic: "Zip archive data", group: "archive", mime: "application/zip", extension: &["xpi"], is_text: false },
            Label::Xz => Metadata { code: "xz", desc: "XZ compressed data", magic: "XZ compressed data", group: "archive", mime: "application/x-xz", extension: &["xz"], is_text: false },
            Label::Yaml => Metadata { code: "yaml", desc: "YAML source", magic: "ASCII text", group: "code", mime: "application/x-yaml", extension: &["yml", "yaml"], is_text: true },
            Label::Zip => Metadata { code: "zip", desc: "Zip archive data", magic: "Zip archive data", group: "archive", mime: "application/zip", extension: &["zip"], is_text: false },
            Label::Zlibstream => Metadata { code: "zlibstream", desc: "zlib compressed data", magic: "zlib compressed data", group: "application", mime: "application/zlib", extension: &[], is_text: false },
        }
    }

    /// Returns the content type non-capitalized enum variant.
    pub fn code(self) -> (r: &'static str)
        ensures
            r == self.spec_metadata().code,
    {
        self.metadata().code
    }

    /// Returns a short description of the content type.
    pub fn short_desc(self) -> (r: &'static str)
        ensures
            r == self.spec_metadata().desc,
    {
        self.metadata().desc
    }

    /// Returns a long description of the content type.
    pub fn long_desc(self) -> (r: &'static str)
        ensures
            r == self.spec_metadata().desc,
    {
        self.metadata().desc
    }

    /// Returns the magic of the content type.
    pub fn magic(self) -> (r: &'static str)
        ensures
            r == self.spec_metadata().magic,
    {
        self.metadata().magic
    }

    /// Returns the group of the content type.
    pub fn group(self) -> (r: &'static str)
        ensures
            r == self.spec_metadata().group,
    {
        self.metadata().group
    }

    /// Returns the MIME type of the content type.
    pub fn mime(self) -> (r: &'static str)
        ensures
            r == self.spec_metadata().mime,
    {
        self.metadata().mime
    }

    /// Returns whether the content type is text.
    pub fn is_text(self) -> (r: bool)
        ensures
            r == self.spec_metadata().is_text,
    {
        self.metadata().is_text
    }
}

} // verus!
