//! The catalog of content types and what is known of each.

use vstd::prelude::*;

verus! {

/// Number of content types in the catalog.
pub const CONTENT_TYPE_COUNT: usize = 215;

/// File type information.
pub struct TypeInfo {
    /// The unique label identifying this file type.
    pub label: &'static str,
    /// The MIME type of the file type.
    pub mime_type: &'static str,
    /// The group of the file type.
    pub group: &'static str,
    /// The description of the file type.
    pub description: &'static str,
    /// Possible extensions for the file type.
    pub extensions: &'static [&'static str],
    /// Whether the file type is text.
    pub is_text: bool,
}

/// Content types for regular files.
#[allow(non_camel_case_types)]
#[derive(Debug, Clone, Copy, PartialEq, Eq, Structural)]
pub enum ContentType {
    /// 3GPP multimedia file
    _3gp,
    /// ACE archive
    Ace,
    /// Adobe Illustrator Artwork
    Ai,
    /// Android Interface Definition Language
    Aidl,
    /// Android package
    Apk,
    /// Apple binary property list
    Applebplist,
    /// Apple property list
    Appleplist,
    /// Assembly
    Asm,
    /// ASP source
    Asp,
    /// AutoHotKey script
    Autohotkey,
    /// AutoIt script
    Autoit,
    /// Awk
    Awk,
    /// DOS batch file
    Batch,
    /// Bazel build file
    Bazel,
    /// BibTeX
    Bib,
    /// BMP image data
    Bmp,
    /// bzip2 compressed data
    Bzip,
    /// C source
    C,
    /// Microsoft Cabinet archive data
    Cab,
    /// Windows Catalog file
    Cat,
    /// MS Windows HtmlHelp Data
    Chm,
    /// Clojure
    Clojure,
    /// CMake build file
    Cmake,
    /// Cobol
    Cobol,
    /// Intel 80386 COFF
    Coff,
    /// CoffeeScript
    Coffeescript,
    /// C++ source
    Cpp,
    /// Certificates (binary format)
    Crt,
    /// Google Chrome extension
    Crx,
    /// C# source
    Cs,
    /// .NET project config
    Csproj,
    /// CSS source
    Css,
    /// CSV document
    Csv,
    /// Dart source
    Dart,
    /// Debian binary package
    Deb,
    /// Dalvik dex file
    Dex,
    /// DICOM
    Dicom,
    /// Diff file
    Diff,
    /// Dream Maker
    Dm,
    /// Apple disk image
    Dmg,
    /// Microsoft Word CDF document
    Doc,
    /// Dockerfile
    Dockerfile,
    /// Microsoft Word 2007+ document
    Docx,
    /// Application Desktop Services Store
    Dsstore,
    /// Autocad Drawing
    Dwg,
    /// Audocad Drawing Exchange Format
    Dxf,
    /// ELF executable
    Elf,
    /// Elixir script
    Elixir,
    /// Windows Enhanced Metafile image data
    Emf,
    /// RFC 822 mail
    Eml,
    /// Empty file
    Empty,
    /// EPUB document
    Epub,
    /// Embedded Ruby source
    Erb,
    /// Erlang source
    Erlang,
    /// FLAC audio bitstream data
    Flac,
    /// Flash Video
    Flv,
    /// Fortran
    Fortran,
    /// Gemfile file
    Gemfile,
    /// Gemspec file
    Gemspec,
    /// GIF image data
    Gif,
    /// Gitattributes file
    Gitattributes,
    /// Gitmodules file
    Gitmodules,
    /// Golang source
    Go,
    /// Gradle source
    Gradle,
    /// Groovy source
    Groovy,
    /// gzip compressed data
    Gzip,
    /// Hierarchical Data Format v5
    H5,
    /// Handlebars source
    Handlebars,
    /// Haskell source
    Haskell,
    /// HashiCorp configuration language
    Hcl,
    /// MS Windows help
    Hlp,
    /// Apache access configuration
    Htaccess,
    /// HTML document
    Html,
    /// Mac OS X icon
    Icns,
    /// MS Windows icon resource
    Ico,
    /// Internet Calendaring and Scheduling
    Ics,
    /// Ignorefile
    Ignorefile,
    /// INI configuration file
    Ini,
    /// MS Windows Internet shortcut
    Internetshortcut,
    /// Jupyter notebook
    Ipynb,
    /// ISO 9660 CD-ROM filesystem data
    Iso,
    /// Java archive data (JAR)
    Jar,
    /// Java source
    Java,
    /// Java compiled bytecode
    Javabytecode,
    /// JavaScript source
    Javascript,
    /// Jinja template
    Jinja,
    /// jpeg2000
    Jp2,
    /// JPEG image data
    Jpeg,
    /// JSON document
    Json,
    /// JSONL document
    Jsonl,
    /// Julia source
    Julia,
    /// Kotlin source
    Kotlin,
    /// LaTeX document
    Latex,
    /// LHarc archive
    Lha,
    /// Lisp source
    Lisp,
    /// MS Windows shortcut
    Lnk,
    /// Lua
    Lua,
    /// M3U playlist
    M3u,
    /// GNU Macro
    M4,
    /// Mach-O executable
    Macho,
    /// Makefile source
    Makefile,
    /// Markdown document
    Markdown,
    /// Matlab Source
    Matlab,
    /// MHTML document
    Mht,
    /// Midi
    Midi,
    /// Matroska
    Mkv,
    /// MP3 media file
    Mp3,
    /// MP4 media file
    Mp4,
    /// MS Compress archive data
    Mscompress,
    /// Microsoft Installer file
    Msi,
    /// Windows Update Package file
    Mum,
    /// Numpy Array
    Npy,
    /// Numpy Arrays Archive
    Npz,
    /// NuGet Package
    Nupkg,
    /// ObjectiveC source
    Objectivec,
    /// OCaml
    Ocaml,
    /// OpenDocument Presentation
    Odp,
    /// OpenDocument Spreadsheet
    Ods,
    /// OpenDocument Text
    Odt,
    /// Ogg data
    Ogg,
    /// One Note
    One,
    /// Open Neural Network Exchange
    Onnx,
    /// OpenType font
    Otf,
    /// MS Outlook Message
    Outlook,
    /// Apache Parquet
    Parquet,
    /// Pascal source
    Pascal,
    /// pcap capture file
    Pcap,
    /// Windows Program Database
    Pdb,
    /// PDF document
    Pdf,
    /// PE Windows executable
    Pebin,
    /// PEM certificate
    Pem,
    /// Perl source
    Perl,
    /// PHP source
    Php,
    /// Python pickle
    Pickle,
    /// PNG image
    Png,
    /// Portable Object (PO) for i18n
    Po,
    /// PostScript document
    Postscript,
    /// Powershell source
    Powershell,
    /// Microsoft PowerPoint CDF document
    Ppt,
    /// Microsoft PowerPoint 2007+ document
    Pptx,
    /// Prolog source
    Prolog,
    /// Protein DB
    Proteindb,
    /// Protocol buffer definition
    Proto,
    /// Adobe Photoshop
    Psd,
    /// Python source
    Python,
    /// Python compiled bytecode
    Pythonbytecode,
    /// Pytorch storage file
    Pytorch,
    /// QuickTime
    Qt,
    /// R (language)
    R,
    /// RAR archive data
    Rar,
    /// Resource Description Framework document (RDF)
    Rdf,
    /// RedHat Package Manager archive (RPM)
    Rpm,
    /// ReStructuredText document
    Rst,
    /// Rich Text Format document
    Rtf,
    /// Ruby source
    Ruby,
    /// Rust source
    Rust,
    /// Scala source
    Scala,
    /// SCSS source
    Scss,
    /// 7-zip archive data
    Sevenzip,
    /// sgml
    Sgml,
    /// Shell script
    Shell,
    /// Smali source
    Smali,
    /// Snap archive
    Snap,
    /// Solidity source
    Solidity,
    /// SQL source
    Sql,
    /// SQLITE database
    Sqlite,
    /// Squash filesystem
    Squashfs,
    /// SubRip Text Format
    Srt,
    /// Stereolithography CAD (binary)
    Stlbinary,
    /// Stereolithography CAD (text)
    Stltext,
    /// Checksum file
    Sum,
    /// SVG Scalable Vector Graphics image data
    Svg,
    /// Small Web File
    Swf,
    /// Swift
    Swift,
    /// POSIX tar archive
    Tar,
    /// Tickle
    Tcl,
    /// Text protocol buffer
    Textproto,
    /// Targa image data
    Tga,
    /// Windows thumbnail cache
    Thumbsdb,
    /// TIFF image data
    Tiff,
    /// Tom's obvious, minimal language
    Toml,
    /// BitTorrent file
    Torrent,
    /// TSV document
    Tsv,
    /// TrueType Font data
    Ttf,
    /// Twig template
    Twig,
    /// Generic text document
    Txt,
    /// Typescript
    Typescript,
    /// Undefined
    Undefined,
    /// Unknown binary data
    Unknown,
    /// MS Visual Basic source (VBA)
    Vba,
    /// Visual Studio MSBuild project
    Vcxproj,
    /// Verilog source
    Verilog,
    /// VHDL source
    Vhdl,
    /// Web Video Text Tracks
    Vtt,
    /// Vue source
    Vue,
    /// Web Assembly
    Wasm,
    /// Waveform Audio file (WAV)
    Wav,
    /// WebM media file
    Webm,
    /// WebP media file
    Webp,
    /// Windows Registry text
    Winregistry,
    /// Windows metafile
    Wmf,
    /// Web Open Font Format
    Woff,
    /// Web Open Font Format v2
    Woff2,
    /// XAR archive compressed data
    Xar,
    /// Microsoft Excel CDF document
    Xls,
    /// Microsoft Excel 2007+ document (binary format)
    Xlsb,
    /// Microsoft Excel 2007+ document
    Xlsx,
    /// XML document
    Xml,
    /// Compressed installation archive (XPI)
    Xpi,
    /// XZ compressed data
    Xz,
    /// YAML source
    Yaml,
    /// YARA rule
    Yara,
    /// Zig source
    Zig,
    /// Zip archive data
    Zip,
    /// zlib compressed data
    Zlibstream,
}

impl ContentType {
    /// Position of the content type in the catalog, dense in `[0, CONTENT_TYPE_COUNT)`.
    pub open spec fn spec_index(self) -> nat {
        match self {
            ContentType::_3gp => 0,
            ContentType::Ace => 1,
            ContentType::Ai => 2,
            ContentType::Aidl => 3,
            ContentType::Apk => 4,
            ContentType::Applebplist => 5,
            ContentType::Appleplist => 6,
            ContentType::Asm => 7,
            ContentType::Asp => 8,
            ContentType::Autohotkey => 9,
            ContentType::Autoit => 10,
            ContentType::Awk => 11,
            ContentType::Batch => 12,
            ContentType::Bazel => 13,
            ContentType::Bib => 14,
            ContentType::Bmp => 15,
            ContentType::Bzip => 16,
            ContentType::C => 17,
            ContentType::Cab => 18,
            ContentType::Cat => 19,
            ContentType::Chm => 20,
            ContentType::Clojure => 21,
            ContentType::Cmake => 22,
            ContentType::Cobol => 23,
            ContentType::Coff => 24,
            ContentType::Coffeescript => 25,
            ContentType::Cpp => 26,
            ContentType::Crt => 27,
            ContentType::Crx => 28,
            ContentType::Cs => 29,
            ContentType::Csproj => 30,
            ContentType::Css => 31,
            ContentType::Csv => 32,
            ContentType::Dart => 33,
            ContentType::Deb => 34,
            ContentType::Dex => 35,
            ContentType::Dicom => 36,
            ContentType::Diff => 37,
            ContentType::Dm => 38,
            ContentType::Dmg => 39,
            ContentType::Doc => 40,
            ContentType::Dockerfile => 41,
            ContentType::Docx => 42,
            ContentType::Dsstore => 43,
            ContentType::Dwg => 44,
            ContentType::Dxf => 45,
            ContentType::Elf => 46,
            ContentType::Elixir => 47,
            ContentType::Emf => 48,
            ContentType::Eml => 49,
            ContentType::Empty => 50,
            ContentType::Epub => 51,
            ContentType::Erb => 52,
            ContentType::Erlang => 53,
            ContentType::Flac => 54,
            ContentType::Flv => 55,
            ContentType::Fortran => 56,
            ContentType::Gemfile => 57,
            ContentType::Gemspec => 58,
            ContentType::Gif => 59,
            ContentType::Gitattributes => 60,
            ContentType::Gitmodules => 61,
            ContentType::Go => 62,
            ContentType::Gradle => 63,
            ContentType::Groovy => 64,
            ContentType::Gzip => 65,
            ContentType::H5 => 66,
            ContentType::Handlebars => 67,
            ContentType::Haskell => 68,
            ContentType::Hcl => 69,
            ContentType::Hlp => 70,
            ContentType::Htaccess => 71,
            ContentType::Html => 72,
            ContentType::Icns => 73,
            ContentType::Ico => 74,
            ContentType::Ics => 75,
            ContentType::Ignorefile => 76,
            ContentType::Ini => 77,
            ContentType::Internetshortcut => 78,
            ContentType::Ipynb => 79,
            ContentType::Iso => 80,
            ContentType::Jar => 81,
            ContentType::Java => 82,
            ContentType::Javabytecode => 83,
            ContentType::Javascript => 84,
            ContentType::Jinja => 85,
            ContentType::Jp2 => 86,
            ContentType::Jpeg => 87,
            ContentType::Json => 88,
            ContentType::Jsonl => 89,
            ContentType::Julia => 90,
            ContentType::Kotlin => 91,
            ContentType::Latex => 92,
            ContentType::Lha => 93,
            ContentType::Lisp => 94,
            ContentType::Lnk => 95,
            ContentType::Lua => 96,
            ContentType::M3u => 97,
            ContentType::M4 => 98,
            ContentType::Macho => 99,
            ContentType::Makefile => 100,
            ContentType::Markdown => 101,
            ContentType::Matlab => 102,
            ContentType::Mht => 103,
            ContentType::Midi => 104,
            ContentType::Mkv => 105,
            ContentType::Mp3 => 106,
            ContentType::Mp4 => 107,
            ContentType::Mscompress => 108,
            ContentType::Msi => 109,
            ContentType::Mum => 110,
            ContentType::Npy => 111,
            ContentType::Npz => 112,
            ContentType::Nupkg => 113,
            ContentType::Objectivec => 114,
            ContentType::Ocaml => 115,
            ContentType::Odp => 116,
            ContentType::Ods => 117,
            ContentType::Odt => 118,
            ContentType::Ogg => 119,
            ContentType::One => 120,
            ContentType::Onnx => 121,
            ContentType::Otf => 122,
            ContentType::Outlook => 123,
            ContentType::Parquet => 124,
            ContentType::Pascal => 125,
            ContentType::Pcap => 126,
            ContentType::Pdb => 127,
            ContentType::Pdf => 128,
            ContentType::Pebin => 129,
            ContentType::Pem => 130,
            ContentType::Perl => 131,
            ContentType::Php => 132,
            ContentType::Pickle => 133,
            ContentType::Png => 134,
            ContentType::Po => 135,
            ContentType::Postscript => 136,
            ContentType::Powershell => 137,
            ContentType::Ppt => 138,
            ContentType::Pptx => 139,
            ContentType::Prolog => 140,
            ContentType::Proteindb => 141,
            ContentType::Proto => 142,
            ContentType::Psd => 143,
            ContentType::Python => 144,
            ContentType::Pythonbytecode => 145,
            ContentType::Pytorch => 146,
            ContentType::Qt => 147,
            ContentType::R => 148,
            ContentType::Rar => 149,
            ContentType::Rdf => 150,
            ContentType::Rpm => 151,
            ContentType::Rst => 152,
            ContentType::Rtf => 153,
            ContentType::Ruby => 154,
            ContentType::Rust => 155,
            ContentType::Scala => 156,
            ContentType::Scss => 157,
            ContentType::Sevenzip => 158,
            ContentType::Sgml => 159,
            ContentType::Shell => 160,
            ContentType::Smali => 161,
            ContentType::Snap => 162,
            ContentType::Solidity => 163,
            ContentType::Sql => 164,
            ContentType::Sqlite => 165,
            ContentType::Squashfs => 166,
            ContentType::Srt => 167,
            ContentType::Stlbinary => 168,
            ContentType::Stltext => 169,
            ContentType::Sum => 170,
            ContentType::Svg => 171,
            ContentType::Swf => 172,
            ContentType::Swift => 173,
            ContentType::Tar => 174,
            ContentType::Tcl => 175,
            ContentType::Textproto => 176,
            ContentType::Tga => 177,
            ContentType::Thumbsdb => 178,
            ContentType::Tiff => 179,
            ContentType::Toml => 180,
            ContentType::Torrent => 181,
            ContentType::Tsv => 182,
            ContentType::Ttf => 183,
            ContentType::Twig => 184,
            ContentType::Txt => 185,
            ContentType::Typescript => 186,
            ContentType::Undefined => 187,
            ContentType::Unknown => 188,
            ContentType::Vba => 189,
            ContentType::Vcxproj => 190,
            ContentType::Verilog => 191,
            ContentType::Vhdl => 192,
            ContentType::Vtt => 193,
            ContentType::Vue => 194,
            ContentType::Wasm => 195,
            ContentType::Wav => 196,
            ContentType::Webm => 197,
            ContentType::Webp => 198,
            ContentType::Winregistry => 199,
            ContentType::Wmf => 200,
            ContentType::Woff => 201,
            ContentType::Woff2 => 202,
            ContentType::Xar => 203,
            ContentType::Xls => 204,
            ContentType::Xlsb => 205,
            ContentType::Xlsx => 206,
            ContentType::Xml => 207,
            ContentType::Xpi => 208,
            ContentType::Xz => 209,
            ContentType::Yaml => 210,
            ContentType::Yara => 211,
            ContentType::Zig => 212,
            ContentType::Zip => 213,
            ContentType::Zlibstream => 214,
        }
    }

    /// The content type at a position of the catalog.
    pub open spec fn spec_from_index(i: nat) -> ContentType {
        if i == 0 {
            ContentType::_3gp
        } else if i == 1 {
            ContentType::Ace
        } else if i == 2 {
            ContentType::Ai
        } else if i == 3 {
            ContentType::Aidl
        } else if i == 4 {
            ContentType::Apk
        } else if i == 5 {
            ContentType::Applebplist
        } else if i == 6 {
            ContentType::Appleplist
        } else if i == 7 {
            ContentType::Asm
        } else if i == 8 {
            ContentType::Asp
        } else if i == 9 {
            ContentType::Autohotkey
        } else if i == 10 {
            ContentType::Autoit
        } else if i == 11 {
            ContentType::Awk
        } else if i == 12 {
            ContentType::Batch
        } else if i == 13 {
            ContentType::Bazel
        } else if i == 14 {
            ContentType::Bib
        } else if i == 15 {
            ContentType::Bmp
        } else if i == 16 {
            ContentType::Bzip
        } else if i == 17 {
            ContentType::C
        } else if i == 18 {
            ContentType::Cab
        } else if i == 19 {
            ContentType::Cat
        } else if i == 20 {
            ContentType::Chm
        } else if i == 21 {
            ContentType::Clojure
        } else if i == 22 {
            ContentType::Cmake
        } else if i == 23 {
            ContentType::Cobol
        } else if i == 24 {
            ContentType::Coff
        } else if i == 25 {
            ContentType::Coffeescript
        } else if i == 26 {
            ContentType::Cpp
        } else if i == 27 {
            ContentType::Crt
        } else if i == 28 {
            ContentType::Crx
        } else if i == 29 {
            ContentType::Cs
        } else if i == 30 {
            ContentType::Csproj
        } else if i == 31 {
            ContentType::Css
        } else if i == 32 {
            ContentType::Csv
        } else if i == 33 {
            ContentType::Dart
        } else if i == 34 {
            ContentType::Deb
        } else if i == 35 {
            ContentType::Dex
        } else if i == 36 {
            ContentType::Dicom
        } else if i == 37 {
            ContentType::Diff
        } else if i == 38 {
            ContentType::Dm
        } else if i == 39 {
            ContentType::Dmg
        } else if i == 40 {
            ContentType::Doc
        } else if i == 41 {
            ContentType::Dockerfile
        } else if i == 42 {
            ContentType::Docx
        } else if i == 43 {
            ContentType::Dsstore
        } else if i == 44 {
            ContentType::Dwg
        } else if i == 45 {
            ContentType::Dxf
        } else if i == 46 {
            ContentType::Elf
        } else if i == 47 {
            ContentType::Elixir
        } else if i == 48 {
            ContentType::Emf
        } else if i == 49 {
            ContentType::Eml
        } else if i == 50 {
            ContentType::Empty
        } else if i == 51 {
            ContentType::Epub
        } else if i == 52 {
            ContentType::Erb
        } else if i == 53 {
            ContentType::Erlang
        } else if i == 54 {
            ContentType::Flac
        } else if i == 55 {
            ContentType::Flv
        } else if i == 56 {
            ContentType::Fortran
        } else if i == 57 {
            ContentType::Gemfile
        } else if i == 58 {
            ContentType::Gemspec
        } else if i == 59 {
            ContentType::Gif
        } else if i == 60 {
            ContentType::Gitattributes
        } else if i == 61 {
            ContentType::Gitmodules
        } else if i == 62 {
            ContentType::Go
        } else if i == 63 {
            ContentType::Gradle
        } else if i == 64 {
            ContentType::Groovy
        } else if i == 65 {
            ContentType::Gzip
        } else if i == 66 {
            ContentType::H5
        } else if i == 67 {
            ContentType::Handlebars
        } else if i == 68 {
            ContentType::Haskell
        } else if i == 69 {
            ContentType::Hcl
        } else if i == 70 {
            ContentType::Hlp
        } else if i == 71 {
            ContentType::Htaccess
        } else if i == 72 {
            ContentType::Html
        } else if i == 73 {
            ContentType::Icns
        } else if i == 74 {
            ContentType::Ico
        } else if i == 75 {
            ContentType::Ics
        } else if i == 76 {
            ContentType::Ignorefile
        } else if i == 77 {
            ContentType::Ini
        } else if i == 78 {
            ContentType::Internetshortcut
        } else if i == 79 {
            ContentType::Ipynb
        } else if i == 80 {
            ContentType::Iso
        } else if i == 81 {
            ContentType::Jar
        } else if i == 82 {
            ContentType::Java
        } else if i == 83 {
            ContentType::Javabytecode
        } else if i == 84 {
            ContentType::Javascript
        } else if i == 85 {
            ContentType::Jinja
        } else if i == 86 {
            ContentType::Jp2
        } else if i == 87 {
            ContentType::Jpeg
        } else if i == 88 {
            ContentType::Json
        } else if i == 89 {
            ContentType::Jsonl
        } else if i == 90 {
            ContentType::Julia
        } else if i == 91 {
            ContentType::Kotlin
        } else if i == 92 {
            ContentType::Latex
        } else if i == 93 {
            ContentType::Lha
        } else if i == 94 {
            ContentType::Lisp
        } else if i == 95 {
            ContentType::Lnk
        } else if i == 96 {
            ContentType::Lua
        } else if i == 97 {
            ContentType::M3u
        } else if i == 98 {
            ContentType::M4
        } else if i == 99 {
            ContentType::Macho
        } else if i == 100 {
            ContentType::Makefile
        } else if i == 101 {
            ContentType::Markdown
        } else if i == 102 {
            ContentType::Matlab
        } else if i == 103 {
            ContentType::Mht
        } else if i == 104 {
            ContentType::Midi
        } else if i == 105 {
            ContentType::Mkv
        } else if i == 106 {
            ContentType::Mp3
        } else if i == 107 {
            ContentType::Mp4
        } else if i == 108 {
            ContentType::Mscompress
        } else if i == 109 {
            ContentType::Msi
        } else if i == 110 {
            ContentType::Mum
        } else if i == 111 {
            ContentType::Npy
        } else if i == 112 {
            ContentType::Npz
        } else if i == 113 {
            ContentType::Nupkg
        } else if i == 114 {
            ContentType::Objectivec
        } else if i == 115 {
            ContentType::Ocaml
        } else if i == 116 {
            ContentType::Odp
        } else if i == 117 {
            ContentType::Ods
        } else if i == 118 {
            ContentType::Odt
        } else if i == 119 {
            ContentType::Ogg
        } else if i == 120 {
            ContentType::One
        } else if i == 121 {
            ContentType::Onnx
        } else if i == 122 {
            ContentType::Otf
        } else if i == 123 {
            ContentType::Outlook
        } else if i == 124 {
            ContentType::Parquet
        } else if i == 125 {
            ContentType::Pascal
        } else if i == 126 {
            ContentType::Pcap
        } else if i == 127 {
            ContentType::Pdb
        } else if i == 128 {
            ContentType::Pdf
        } else if i == 129 {
            ContentType::Pebin
        } else if i == 130 {
            ContentType::Pem
        } else if i == 131 {
            ContentType::Perl
        } else if i == 132 {
            ContentType::Php
        } else if i == 133 {
            ContentType::Pickle
        } else if i == 134 {
            ContentType::Png
        } else if i == 135 {
            ContentType::Po
        } else if i == 136 {
            ContentType::Postscript
        } else if i == 137 {
            ContentType::Powershell
        } else if i == 138 {
            ContentType::Ppt
        } else if i == 139 {
            ContentType::Pptx
        } else if i == 140 {
            ContentType::Prolog
        } else if i == 141 {
            ContentType::Proteindb
        } else if i == 142 {
            ContentType::Proto
        } else if i == 143 {
            ContentType::Psd
        } else if i == 144 {
            ContentType::Python
        } else if i == 145 {
            ContentType::Pythonbytecode
        } else if i == 146 {
            ContentType::Pytorch
        } else if i == 147 {
            ContentType::Qt
        } else if i == 148 {
            ContentType::R
        } else if i == 149 {
            ContentType::Rar
        } else if i == 150 {
            ContentType::Rdf
        } else if i == 151 {
            ContentType::Rpm
        } else if i == 152 {
            ContentType::Rst
        } else if i == 153 {
            ContentType::Rtf
        } else if i == 154 {
            ContentType::Ruby
        } else if i == 155 {
            ContentType::Rust
        } else if i == 156 {
            ContentType::Scala
        } else if i == 157 {
            ContentType::Scss
        } else if i == 158 {
            ContentType::Sevenzip
        } else if i == 159 {
            ContentType::Sgml
        } else if i == 160 {
            ContentType::Shell
        } else if i == 161 {
            ContentType::Smali
        } else if i == 162 {
            ContentType::Snap
        } else if i == 163 {
            ContentType::Solidity
        } else if i == 164 {
            ContentType::Sql
        } else if i == 165 {
            ContentType::Sqlite
        } else if i == 166 {
            ContentType::Squashfs
        } else if i == 167 {
            ContentType::Srt
        } else if i == 168 {
            ContentType::Stlbinary
        } else if i == 169 {
            ContentType::Stltext
        } else if i == 170 {
            ContentType::Sum
        } else if i == 171 {
            ContentType::Svg
        } else if i == 172 {
            ContentType::Swf
        } else if i == 173 {
            ContentType::Swift
        } else if i == 174 {
            ContentType::Tar
        } else if i == 175 {
            ContentType::Tcl
        } else if i == 176 {
            ContentType::Textproto
        } else if i == 177 {
            ContentType::Tga
        } else if i == 178 {
            ContentType::Thumbsdb
        } else if i == 179 {
            ContentType::Tiff
        } else if i == 180 {
            ContentType::Toml
        } else if i == 181 {
            ContentType::Torrent
        } else if i == 182 {
            ContentType::Tsv
        } else if i == 183 {
            ContentType::Ttf
        } else if i == 184 {
            ContentType::Twig
        } else if i == 185 {
            ContentType::Txt
        } else if i == 186 {
            ContentType::Typescript
        } else if i == 187 {
            ContentType::Undefined
        } else if i == 188 {
            ContentType::Unknown
        } else if i == 189 {
            ContentType::Vba
        } else if i == 190 {
            ContentType::Vcxproj
        } else if i == 191 {
            ContentType::Verilog
        } else if i == 192 {
            ContentType::Vhdl
        } else if i == 193 {
            ContentType::Vtt
        } else if i == 194 {
            ContentType::Vue
        } else if i == 195 {
            ContentType::Wasm
        } else if i == 196 {
            ContentType::Wav
        } else if i == 197 {
            ContentType::Webm
        } else if i == 198 {
            ContentType::Webp
        } else if i == 199 {
            ContentType::Winregistry
        } else if i == 200 {
            ContentType::Wmf
        } else if i == 201 {
            ContentType::Woff
        } else if i == 202 {
            ContentType::Woff2
        } else if i == 203 {
            ContentType::Xar
        } else if i == 204 {
            ContentType::Xls
        } else if i == 205 {
            ContentType::Xlsb
        } else if i == 206 {
            ContentType::Xlsx
        } else if i == 207 {
            ContentType::Xml
        } else if i == 208 {
            ContentType::Xpi
        } else if i == 209 {
            ContentType::Xz
        } else if i == 210 {
            ContentType::Yaml
        } else if i == 211 {
            ContentType::Yara
        } else if i == 212 {
            ContentType::Zig
        } else if i == 213 {
            ContentType::Zip
        } else {
            ContentType::Zlibstream
        }
    }

    /// Every position of the catalog is taken by exactly one content type.
    pub proof fn lemma_index_round_trip(self)
        ensures
            self.spec_index() < CONTENT_TYPE_COUNT,
            ContentType::spec_from_index(self.spec_index()) == self,
    {
    }

    /// What the catalog records of the content type.
    pub open spec fn spec_info(self) -> TypeInfo {
        match self {
            ContentType::_3gp => TypeInfo { label: "3gp", mime_type: "video/3gpp", group: "video", description: "3GPP multimedia file", extensions: &["3gp"], is_text: false },
            ContentType::Ace => TypeInfo { label: "ace", mime_type: "application/x-ace-compressed", group: "archive", description: "ACE archive", extensions: &["ace"], is_text: false },
            ContentType::Ai => TypeInfo { label: "ai", mime_type: "application/pdf", group: "document", description: "Adobe Illustrator Artwork", extensions: &["ai"], is_text: false },
            ContentType::Aidl => TypeInfo { label: "aidl", mime_type: "text/plain", group: "unknown", description: "Android Interface Definition Language", extensions: &["aidl"], is_text: true },
            ContentType::Apk => TypeInfo { label: "apk", mime_type: "application/vnd.android.package-archive", group: "executable", description: "Android package", extensions: &["apk"], is_text: false },
            ContentType::Applebplist => TypeInfo { label: "applebplist", mime_type: "application/x-bplist", group: "application", description: "Apple binary property list", extensions: &["bplist", "plist"], is_text: false },
            ContentType::Appleplist => TypeInfo { label: "appleplist", mime_type: "application/x-plist", group: "application", description: "Apple property list", extensions: &["plist"], is_text: true },
            ContentType::Asm => TypeInfo { label: "asm", mime_type: "text/x-asm", group: "code", description: "Assembly", extensions: &["s", "S", "asm"], is_text: true },
            ContentType::Asp => TypeInfo { label: "asp", mime_type: "text/html", group: "code", description: "ASP source", extensions: &["aspx", "asp"], is_text: true },
            ContentType::Autohotkey => TypeInfo { label: "autohotkey", mime_type: "text/plain", group: "code", description: "AutoHotKey script", extensions: &[], is_text: true },
            ContentType::Autoit => TypeInfo { label: "autoit", mime_type: "text/plain", group: "code", description: "AutoIt script", extensions: &["au3"], is_text: true },
            ContentType::Awk => TypeInfo { label: "awk", mime_type: "text/plain", group: "code", description: "Awk", extensions: &["awk"], is_text: true },
            ContentType::Batch => TypeInfo { label: "batch", mime_type: "text/x-msdos-batch", group: "code", description: "DOS batch file", extensions: &["bat"], is_text: true },
            ContentType::Bazel => TypeInfo { label: "bazel", mime_type: "text/plain", group: "code", description: "Bazel build file", extensions: &["bzl"], is_text: true },
            ContentType::Bib => TypeInfo { label: "bib", mime_type: "text/x-bibtex", group: "text", description: "BibTeX", extensions: &["bib"], is_text: true },
            ContentType::Bmp => TypeInfo { label: "bmp", mime_type: "image/bmp", group: "image", description: "BMP image data", extensions: &["bmp"], is_text: false },
            ContentType::Bzip => TypeInfo { label: "bzip", mime_type: "application/x-bzip2", group: "archive", description: "bzip2 compressed data", extensions: &["bz2", "tbz2", "tar.bz2"], is_text: false },
            ContentType::C => TypeInfo { label: "c", mime_type: "text/x-c", group: "code", description: "C source", extensions: &["c"], is_text: true },
            ContentType::Cab => TypeInfo { label: "cab", mime_type: "application/vnd.ms-cab-compressed", group: "archive", description: "Microsoft Cabinet archive data", extensions: &["cab"], is_text: false },
            ContentType::Cat => TypeInfo { label: "cat", mime_type: "application/octet-stream", group: "application", description: "Windows Catalog file", extensions: &["cat"], is_text: false },
            ContentType::Chm => TypeInfo { label: "chm", mime_type: "application/chm", group: "application", description: "MS Windows HtmlHelp Data", extensions: &["chm"], is_text: false },
            ContentType::Clojure => TypeInfo { label: "clojure", mime_type: "text/x-clojure", group: "code", description: "Clojure", extensions: &["clj", "cljs", "cljc", "cljr"], is_text: true },
            ContentType::Cmake => TypeInfo { label: "cmake", mime_type: "text/x-cmake", group: "code", description: "CMake build file", extensions: &["cmake"], is_text: true },
            ContentType::Cobol => TypeInfo { label: "cobol", mime_type: "text/x-cobol", group: "code", description: "Cobol", extensions: &["cbl", "cob", "cpy", "CBL", "COB", "CPY"], is_text: true },
            ContentType::Coff => TypeInfo { label: "coff", mime_type: "application/x-coff", group: "executable", description: "Intel 80386 COFF", extensions: &["obj", "o"], is_text: false },
            ContentType::Coffeescript => TypeInfo { label: "coffeescript", mime_type: "text/coffeescript", group: "code", description: "CoffeeScript", extensions: &["coffee"], is_text: true },
            ContentType::Cpp => TypeInfo { label: "cpp", mime_type: "text/x-c", group: "code", description: "C++ source", extensions: &["cc", "cpp", "cxx", "c++", "cppm", "ixx"], is_text: true },
            ContentType::Crt => TypeInfo { label: "crt", mime_type: "application/x-x509-ca-cert", group: "text", description: "Certificates (binary format)", extensions: &["der", "cer", "crt"], is_text: false },
            ContentType::Crx => TypeInfo { label: "crx", mime_type: "application/x-chrome-extension", group: "executable", description: "Google Chrome extension", extensions: &["crx"], is_text: false },
            ContentType::Cs => TypeInfo { label: "cs", mime_type: "text/plain", group: "code", description: "C# source", extensions: &["cs", "csx"], is_text: true },
            ContentType::Csproj => TypeInfo { label: "csproj", mime_type: "text/plain", group: "code", description: ".NET project config", extensions: &["csproj"], is_text: true },
            ContentType::Css => TypeInfo { label: "css", mime_type: "text/css", group: "code", description: "CSS source", extensions: &["css"], is_text: true },
            ContentType::Csv => TypeInfo { label: "csv", mime_type: "text/csv", group: "code", description: "CSV document", extensions: &["csv"], is_text: true },
            ContentType::Dart => TypeInfo { label: "dart", mime_type: "text/plain", group: "code", description: "Dart source", extensions: &["dart"], is_text: true },
            ContentType::Deb => TypeInfo { label: "deb", mime_type: "application/vnd.debian.binary-package", group: "archive", description: "Debian binary package", extensions: &["deb"], is_text: false },
            ContentType::Dex => TypeInfo { label: "dex", mime_type: "application/x-android-dex", group: "executable", description: "Dalvik dex file", extensions: &["dex"], is_text: false },
            ContentType::Dicom => TypeInfo { label: "dicom", mime_type: "application/dicom", group: "image", description: "DICOM", extensions: &["dcm"], is_text: false },
            ContentType::Diff => TypeInfo { label: "diff", mime_type: "text/plain", group: "text", description: "Diff file", extensions: &["diff", "patch"], is_text: true },
            ContentType::Dm => TypeInfo { label: "dm", mime_type: "text/plain", group: "text", description: "Dream Maker", extensions: &["dm"], is_text: true },
            ContentType::Dmg => TypeInfo { label: "dmg", mime_type: "application/x-apple-diskimage", group: "archive", description: "Apple disk image", extensions: &["dmg"], is_text: false },
            ContentType::Doc => TypeInfo { label: "doc", mime_type: "application/msword", group: "document", description: "Microsoft Word CDF document", extensions: &["doc"], is_text: false },
            ContentType::Dockerfile => TypeInfo { label: "dockerfile", mime_type: "text/x-dockerfile", group: "code", description: "Dockerfile", extensions: &[], is_text: true },
            ContentType::Docx => TypeInfo { label: "docx", mime_type: "application/vnd.openxmlformats-officedocument.wordprocessingml.document", group: "document", description: "Microsoft Word 2007+ document", extensions: &["docx", "docm"], is_text: false },
            ContentType::Dsstore => TypeInfo { label: "dsstore", mime_type: "application/octet-stream", group: "unknown", description: "Application Desktop Services Store", extensions: &[], is_text: false },
            ContentType::Dwg => TypeInfo { label: "dwg", mime_type: "image/x-dwg", group: "image", description: "Autocad Drawing", extensions: &["dwg"], is_text: false },
            ContentType::Dxf => TypeInfo { label: "dxf", mime_type: "image/vnd.dxf", group: "image", description: "Audocad Drawing Exchange Format", extensions: &["dxf"], is_text: true },
            ContentType::Elf => TypeInfo { label: "elf", mime_type: "application/x-executable-elf", group: "executable", description: "ELF executable", extensions: &["elf"], is_text: false },
            ContentType::Elixir => TypeInfo { label: "elixir", mime_type: "text/plain", group: "code", description: "Elixir script", extensions: &["exs"], is_text: true },
            ContentType::Emf => TypeInfo { label: "emf", mime_type: "application/octet-stream", group: "application", description: "Windows Enhanced Metafile image data", extensions: &["emf"], is_text: false },
            ContentType::Eml => TypeInfo { label: "eml", mime_type: "message/rfc822", group: "text", description: "RFC 822 mail", extensions: &["eml"], is_text: true },
            ContentType::Empty => TypeInfo { label: "empty", mime_type: "inode/x-empty", group: "inode", description: "Empty file", extensions: &[], is_text: false },
            ContentType::Epub => TypeInfo { label: "epub", mime_type: "application/epub+zip", group: "document", description: "EPUB document", extensions: &["epub"], is_text: false },
            ContentType::Erb => TypeInfo { label: "erb", mime_type: "text/x-ruby", group: "code", description: "Embedded Ruby source", extensions: &["erb"], is_text: true },
            ContentType::Erlang => TypeInfo { label: "erlang", mime_type: "text/x-erlang", group: "code", description: "Erlang source", extensions: &["erl", "hrl"], is_text: true },
            ContentType::Flac => TypeInfo { label: "flac", mime_type: "audio/flac", group: "audio", description: "FLAC audio bitstream data", extensions: &["flac"], is_text: false },
            ContentType::Flv => TypeInfo { label: "flv", mime_type: "video/x-flv", group: "video", description: "Flash Video", extensions: &["flv"], is_text: false },
            ContentType::Fortran => TypeInfo { label: "fortran", mime_type: "text/x-fortran", group: "document", description: "Fortran", extensions: &["f90", "f95", "f03", "F90"], is_text: true },
            ContentType::Gemfile => TypeInfo { label: "gemfile", mime_type: "text/plain", group: "code", description: "Gemfile file", extensions: &[], is_text: true },
            ContentType::Gemspec => TypeInfo { label: "gemspec", mime_type: "text/plain", group: "code", description: "Gemspec file", extensions: &["gemspec"], is_text: true },
            ContentType::Gif => TypeInfo { label: "gif", mime_type: "image/gif", group: "image", description: "GIF image data", extensions: &["gif"], is_text: false },
            ContentType::Gitattributes => TypeInfo { label: "gitattributes", mime_type: "text/plain", group: "code", description: "Gitattributes file", extensions: &[], is_text: true },
            ContentType::Gitmodules => TypeInfo { label: "gitmodules", mime_type: "text/plain", group: "code", description: "Gitmodules file", extensions: &[], is_text: true },
            ContentType::Go => TypeInfo { label: "go", mime_type: "text/x-golang", group: "code", description: "Golang source", extensions: &["go"], is_text: true },
            ContentType::Gradle => TypeInfo { label: "gradle", mime_type: "text/x-groovy", group: "code", description: "Gradle source", extensions: &["gradle"], is_text: true },
            ContentType::Groovy => TypeInfo { label: "groovy", mime_type: "text/x-groovy", group: "code", description: "Groovy source", extensions: &["groovy"], is_text: true },
            ContentType::Gzip => TypeInfo { label: "gzip", mime_type: "application/gzip", group: "archive", description: "gzip compressed data", extensions: &["gz", "gzip", "tgz", "tar.gz"], is_text: false },
            ContentType::H5 => TypeInfo { label: "h5", mime_type: "application/x-hdf5", group: "archive", description: "Hierarchical Data Format v5", extensions: &["h5", "hdf5"], is_text: false },
            ContentType::Handlebars => TypeInfo { label: "handlebars", mime_type: "text/x-handlebars-template", group: "code", description: "Handlebars source", extensions: &["hbs", "handlebars"], is_text: true },
            ContentType::Haskell => TypeInfo { label: "haskell", mime_type: "text/plain", group: "code", description: "Haskell source", extensions: &["hs", "lhs"], is_text: true },
            ContentType::Hcl => TypeInfo { label: "hcl", mime_type: "text/x-hcl", group: "code", description: "HashiCorp configuration language", extensions: &["hcl"], is_text: true },
            ContentType::Hlp => TypeInfo { label: "hlp", mime_type: "application/winhlp", group: "application", description: "MS Windows help", extensions: &["hlp"], is_text: false },
            ContentType::Htaccess => TypeInfo { label: "htaccess", mime_type: "text/x-apache-conf", group: "code", description: "Apache access configuration", extensions: &[], is_text: true },
            ContentType::Html => TypeInfo { label: "html", mime_type: "text/html", group: "code", description: "HTML document", extensions: &["html", "htm", "xhtml", "xht"], is_text: true },
            ContentType::Icns => TypeInfo { label: "icns", mime_type: "image/x-icns", group: "image", description: "Mac OS X icon", extensions: &["icns"], is_text: false },
            ContentType::Ico => TypeInfo { label: "ico", mime_type: "image/vnd.microsoft.icon", group: "image", description: "MS Windows icon resource", extensions: &["ico"], is_text: false },
            ContentType::Ics => TypeInfo { label: "ics", mime_type: "text/calendar", group: "application", description: "Internet Calendaring and Scheduling", extensions: &["ics"], is_text: true },
            ContentType::Ignorefile => TypeInfo { label: "ignorefile", mime_type: "text/plain", group: "code", description: "Ignorefile", extensions: &[], is_text: true },
            ContentType::Ini => TypeInfo { label: "ini", mime_type: "text/plain", group: "text", description: "INI configuration file", extensions: &["ini"], is_text: true },
            ContentType::Internetshortcut => TypeInfo { label: "internetshortcut", mime_type: "application/x-mswinurl", group: "application", description: "MS Windows Internet shortcut", extensions: &["url"], is_text: true },
            ContentType::Ipynb => TypeInfo { label: "ipynb", mime_type: "application/json", group: "code", description: "Jupyter notebook", extensions: &["ipynb"], is_text: true },
            ContentType::Iso => TypeInfo { label: "iso", mime_type: "application/x-iso9660-image", group: "archive", description: "ISO 9660 CD-ROM filesystem data", extensions: &["iso"], is_text: false },
            ContentType::Jar => TypeInfo { label: "jar", mime_type: "application/java-archive", group: "archive", description: "Java archive data (JAR)", extensions: &["jar", "klib"], is_text: false },
            ContentType::Java => TypeInfo { label: "java", mime_type: "text/x-java", group: "code", description: "Java source", extensions: &["java"], is_text: true },
            ContentType::Javabytecode => TypeInfo { label: "javabytecode", mime_type: "application/x-java-applet", group: "executable", description: "Java compiled bytecode", extensions: &["class"], is_text: false },
            ContentType::Javascript => TypeInfo { label: "javascript", mime_type: "application/javascript", group: "code", description: "JavaScript source", extensions: &["js", "mjs", "cjs"], is_text: true },
            ContentType::Jinja => TypeInfo { label: "jinja", mime_type: "text/x-jinja2-template", group: "code", description: "Jinja template", extensions: &["jinja", "jinja2", "j2"], is_text: true },
            ContentType::Jp2 => TypeInfo { label: "jp2", mime_type: "image/jpeg2000", group: "image", description: "jpeg2000", extensions: &["jp2"], is_text: false },
            ContentType::Jpeg => TypeInfo { label: "jpeg", mime_type: "image/jpeg", group: "image", description: "JPEG image data", extensions: &["jpg", "jpeg"], is_text: false },
            ContentType::Json => TypeInfo { label: "json", mime_type: "application/json", group: "code", description: "JSON document", extensions: &["json"], is_text: true },
            ContentType::Jsonl => TypeInfo { label: "jsonl", mime_type: "application/json", group: "code", description: "JSONL document", extensions: &["jsonl", "jsonld"], is_text: true },
            ContentType::Julia => TypeInfo { label: "julia", mime_type: "text/x-julia", group: "code", description: "Julia source", extensions: &["jl"], is_text: true },
            ContentType::Kotlin => TypeInfo { label: "kotlin", mime_type: "text/plain", group: "code", description: "Kotlin source", extensions: &["kt", "kts"], is_text: true },
            ContentType::Latex => TypeInfo { label: "latex", mime_type: "text/x-tex", group: "text", description: "LaTeX document", extensions: &["tex", "sty"], is_text: true },
            ContentType::Lha => TypeInfo { label: "lha", mime_type: "application/x-lha", group: "archive", description: "LHarc archive", extensions: &["lha", "lzh"], is_text: false },
            ContentType::Lisp => TypeInfo { label: "lisp", mime_type: "text/x-lisp", group: "code", description: "Lisp source", extensions: &["lisp", "lsp", "l", "cl"], is_text: true },
            ContentType::Lnk => TypeInfo { label: "lnk", mime_type: "application/x-ms-shortcut", group: "application", description: "MS Windows shortcut", extensions: &["lnk"], is_text: false },
            ContentType::Lua => TypeInfo { label: "lua", mime_type: "text/plain", group: "text", description: "Lua", extensions: &["lua"], is_text: true },
            ContentType::M3u => TypeInfo { label: "m3u", mime_type: "text/plain", group: "application", description: "M3U playlist", extensions: &["m3u8", "m3u"], is_text: true },
            ContentType::M4 => TypeInfo { label: "m4", mime_type: "text/plain", group: "code", description: "GNU Macro", extensions: &["m4"], is_text: true },
            ContentType::Macho => TypeInfo { label: "macho", mime_type: "application/x-mach-o", group: "executable", description: "Mach-O executable", extensions: &[], is_text: false },
            ContentType::Makefile => TypeInfo { label: "makefile", mime_type: "text/x-makefile", group: "code", description: "Makefile source", extensions: &[], is_text: true },
            ContentType::Markdown => TypeInfo { label: "markdown", mime_type: "text/markdown", group: "text", description: "Markdown document", extensions: &["md", "markdown"], is_text: true },
            ContentType::Matlab => TypeInfo { label: "matlab", mime_type: "text/x-matlab", group: "code", description: "Matlab Source", extensions: &["m", "matlab"], is_text: true },
            ContentType::Mht => TypeInfo { label: "mht", mime_type: "application/x-mimearchive", group: "code", description: "MHTML document", extensions: &["mht"], is_text: true },
            ContentType::Midi => TypeInfo { label: "midi", mime_type: "audio/midi", group: "audio", description: "Midi", extensions: &["mid"], is_text: false },
            ContentType::Mkv => TypeInfo { label: "mkv", mime_type: "video/x-matroska", group: "video", description: "Matroska", extensions: &["mkv"], is_text: false },
            ContentType::Mp3 => TypeInfo { label: "mp3", mime_type: "audio/mpeg", group: "audio", description: "MP3 media file", extensions: &["mp3"], is_text: false },
            ContentType::Mp4 => TypeInfo { label: "mp4", mime_type: "video/mp4", group: "video", description: "MP4 media file", extensions: &["mp4"], is_text: false },
            ContentType::Mscompress => TypeInfo { label: "mscompress", mime_type: "application/x-ms-compress-szdd", group: "archive", description: "MS Compress archive data", extensions: &[], is_text: false },
            ContentType::Msi => TypeInfo { label: "msi", mime_type: "application/x-msi", group: "archive", description: "Microsoft Installer file", extensions: &["msi"], is_text: false },
            ContentType::Mum => TypeInfo { label: "mum", mime_type: "text/xml", group: "application", description: "Windows Update Package file", extensions: &["mum"], is_text: true },
            ContentType::Npy => TypeInfo { label: "npy", mime_type: "application/octet-stream", group: "archive", description: "Numpy Array", extensions: &["npy"], is_text: false },
            ContentType::Npz => TypeInfo { label: "npz", mime_type: "application/octet-stream", group: "archive", description: "Numpy Arrays Archive", extensions: &["npz"], is_text: false },
            ContentType::Nupkg => TypeInfo { label: "nupkg", mime_type: "application/octet-stream", group: "unknown", description: "NuGet Package", extensions: &["nupkg"], is_text: false },
            ContentType::Objectivec => TypeInfo { label: "objectivec", mime_type: "text/x-objcsrc", group: "code", description: "ObjectiveC source", extensions: &["m", "mm"], is_text: true },
            ContentType::Ocaml => TypeInfo { label: "ocaml", mime_type: "text-ocaml", group: "text", description: "OCaml", extensions: &["ml", "mli"], is_text: true },
            ContentType::Odp => TypeInfo { label: "odp", mime_type: "application/vnd.oasis.opendocument.presentation", group: "document", description: "OpenDocument Presentation", extensions: &["odp"], is_text: false },
            ContentType::Ods => TypeInfo { label: "ods", mime_type: "application/vnd.oasis.opendocument.spreadsheet", group: "document", description: "OpenDocument Spreadsheet", extensions: &["ods"], is_text: false },
            ContentType::Odt => TypeInfo { label: "odt", mime_type: "application/vnd.oasis.opendocument.text", group: "document", description: "OpenDocument Text", extensions: &["odt"], is_text: false },
            ContentType::Ogg => TypeInfo { label: "ogg", mime_type: "audio/ogg", group: "audio", description: "Ogg data", extensions: &["ogg"], is_text: false },
            ContentType::One => TypeInfo { label: "one", mime_type: "application/msonenote", group: "document", description: "One Note", extensions: &["one"], is_text: false },
            ContentType::Onnx => TypeInfo { label: "onnx", mime_type: "application/octet-stream", group: "archive", description: "Open Neural Network Exchange", extensions: &["onnx"], is_text: false },
            ContentType::Otf => TypeInfo { label: "otf", mime_type: "font/otf", group: "font", description: "OpenType font", extensions: &["otf"], is_text: false },
            ContentType::Outlook => TypeInfo { label: "outlook", mime_type: "application/vnd.ms-outlook", group: "application", description: "MS Outlook Message", extensions: &[], is_text: false },
            ContentType::Parquet => TypeInfo { label: "parquet", mime_type: "application/vnd.apache.parquet", group: "unknown", description: "Apache Parquet", extensions: &["pqt", "parquet"], is_text: false },
            ContentType::Pascal => TypeInfo { label: "pascal", mime_type: "text/x-pascal", group: "code", description: "Pascal source", extensions: &["pas", "pp"], is_text: true },
            ContentType::Pcap => TypeInfo { label: "pcap", mime_type: "application/vnd.tcpdump.pcap", group: "application", description: "pcap capture file", extensions: &["pcap", "pcapng"], is_text: false },
            ContentType::Pdb => TypeInfo { label: "pdb", mime_type: "application/octet-stream", group: "application", description: "Windows Program Database", extensions: &["pdb"], is_text: false },
            ContentType::Pdf => TypeInfo { label: "pdf", mime_type: "application/pdf", group: "document", description: "PDF document", extensions: &["pdf"], is_text: false },
            ContentType::Pebin => TypeInfo { label: "pebin", mime_type: "application/x-dosexec", group: "executable", description: "PE Windows executable", extensions: &["exe", "dll"], is_text: false },
            ContentType::Pem => TypeInfo { label: "pem", mime_type: "application/x-pem-file", group: "application", description: "PEM certificate", extensions: &["pem", "pub", "gpg"], is_text: true },
            ContentType::Perl => TypeInfo { label: "perl", mime_type: "text/x-perl", group: "code", description: "Perl source", extensions: &["pl"], is_text: true },
            ContentType::Php => TypeInfo { label: "php", mime_type: "text/x-php", group: "code", description: "PHP source", extensions: &["php"], is_text: true },
            ContentType::Pickle => TypeInfo { label: "pickle", mime_type: "application/octet-stream", group: "application", description: "Python pickle", extensions: &["pickle", "pkl"], is_text: false },
            ContentType::Png => TypeInfo { label: "png", mime_type: "image/png", group: "image", description: "PNG image", extensions: &["png"], is_text: false },
            ContentType::Po => TypeInfo { label: "po", mime_type: "text/gettext-translation", group: "application", description: "Portable Object (PO) for i18n", extensions: &["po"], is_text: true },
            ContentType::Postscript => TypeInfo { label: "postscript", mime_type: "application/postscript", group: "document", description: "PostScript document", extensions: &["ps"], is_text: false },
            ContentType::Powershell => TypeInfo { label: "powershell", mime_type: "application/x-powershell", group: "code", description: "Powershell source", extensions: &["ps1"], is_text: true },
            ContentType::Ppt => TypeInfo { label: "ppt", mime_type: "application/vnd.ms-powerpoint", group: "document", description: "Microsoft PowerPoint CDF document", extensions: &["ppt"], is_text: false },
            ContentType::Pptx => TypeInfo { label: "pptx", mime_type: "application/vnd.openxmlformats-officedocument.presentationml.presentation", group: "document", description: "Microsoft PowerPoint 2007+ document", extensions: &["pptx", "pptm"], is_text: false },
            ContentType::Prolog => TypeInfo { label: "prolog", mime_type: "text/x-prolog", group: "code", description: "Prolog source", extensions: &["pl", "pro", "P"], is_text: true },
            ContentType::Proteindb => TypeInfo { label: "proteindb", mime_type: "application/octet-stream", group: "application", description: "Protein DB", extensions: &["pdb"], is_text: true },
            ContentType::Proto => TypeInfo { label: "proto", mime_type: "text/x-proto", group: "code", description: "Protocol buffer definition", extensions: &["proto"], is_text: true },
            ContentType::Psd => TypeInfo { label: "psd", mime_type: "image/vnd.adobe.photoshop", group: "image", description: "Adobe Photoshop", extensions: &["psd"], is_text: false },
            ContentType::Python => TypeInfo { label: "python", mime_type: "text/x-python", group: "code", description: "Python source", extensions: &["py", "pyi"], is_text: true },
            ContentType::Pythonbytecode => TypeInfo { label: "pythonbytecode", mime_type: "application/x-bytecode.python", group: "executable", description: "Python compiled bytecode", extensions: &["pyc", "pyo"], is_text: false },
            ContentType::Pytorch => TypeInfo { label: "pytorch", mime_type: "application/octet-stream", group: "application", description: "Pytorch storage file", extensions: &["pt", "pth"], is_text: false },
            ContentType::Qt => TypeInfo { label: "qt", mime_type: "video/quicktime", group: "video", description: "QuickTime", extensions: &["mov"], is_text: false },
            ContentType::R => TypeInfo { label: "r", mime_type: "text/x-R", group: "code", description: "R (language)", extensions: &["R"], is_text: true },
            ContentType::Rar => TypeInfo { label: "rar", mime_type: "application/x-rar", group: "archive", description: "RAR archive data", extensions: &["rar"], is_text: false },
            ContentType::Rdf => TypeInfo { label: "rdf", mime_type: "application/rdf+xml", group: "text", description: "Resource Description Framework document (RDF)", extensions: &["rdf"], is_text: true },
            ContentType::Rpm => TypeInfo { label: "rpm", mime_type: "application/x-rpm", group: "archive", description: "RedHat Package Manager archive (RPM)", extensions: &["rpm"], is_text: false },
            ContentType::Rst => TypeInfo { label: "rst", mime_type: "text/x-rst", group: "text", description: "ReStructuredText document", extensions: &["rst"], is_text: true },
            ContentType::Rtf => TypeInfo { label: "rtf", mime_type: "text/rtf", group: "text", description: "Rich Text Format document", extensions: &["rtf"], is_text: true },
            ContentType::Ruby => TypeInfo { label: "ruby", mime_type: "application/x-ruby", group: "code", description: "Ruby source", extensions: &["rb"], is_text: true },
            ContentType::Rust => TypeInfo { label: "rust", mime_type: "application/x-rust", group: "code", description: "Rust source", extensions: &["rs"], is_text: true },
            ContentType::Scala => TypeInfo { label: "scala", mime_type: "application/x-scala", group: "code", description: "Scala source", extensions: &["scala"], is_text: true },
            ContentType::Scss => TypeInfo { label: "scss", mime_type: "text/x-scss", group: "code", description: "SCSS source", extensions: &["scss"], is_text: true },
            ContentType::Sevenzip => TypeInfo { label: "sevenzip", mime_type: "application/x-7z-compressed", group: "archive", description: "7-zip archive data", extensions: &["7z"], is_text: false },
            ContentType::Sgml => TypeInfo { label: "sgml", mime_type: "application/sgml", group: "text", description: "sgml", extensions: &["sgml"], is_text: true },
            ContentType::Shell => TypeInfo { label: "shell", mime_type: "text/x-shellscript", group: "code", description: "Shell script", extensions: &["sh"], is_text: true },
            ContentType::Smali => TypeInfo { label: "smali", mime_type: "application/x-smali", group: "code", description: "Smali source", extensions: &["smali"], is_text: true },
            ContentType::Snap => TypeInfo { label: "snap", mime_type: "application/octet-stream", group: "archive", description: "Snap archive", extensions: &["snap"], is_text: false },
            ContentType::Solidity => TypeInfo { label: "solidity", mime_type: "text/plain", group: "code", description: "Solidity source", extensions: &["sol"], is_text: true },
            ContentType::Sql => TypeInfo { label: "sql", mime_type: "application/x-sql", group: "code", description: "SQL source", extensions: &["sql"], is_text: true },
            ContentType::Sqlite => TypeInfo { label: "sqlite", mime_type: "application/octet-stream", group: "application", description: "SQLITE database", extensions: &["sqlite", "sqlite3"], is_text: false },
            ContentType::Squashfs => TypeInfo { label: "squashfs", mime_type: "application/octet-stream", group: "archive", description: "Squash filesystem", extensions: &[], is_text: false },
            ContentType::Srt => TypeInfo { label: "srt", mime_type: "text/srt", group: "application", description: "SubRip Text Format", extensions: &["srt"], is_text: true },
            ContentType::Stlbinary => TypeInfo { label: "stlbinary", mime_type: "application/sla", group: "image", description: "Stereolithography CAD (binary)", extensions: &["stl"], is_text: false },
            ContentType::Stltext => TypeInfo { label: "stltext", mime_type: "application/sla", group: "image", description: "Stereolithography CAD (text)", extensions: &["stl"], is_text: true },
            ContentType::Sum => TypeInfo { label: "sum", mime_type: "text/plain", group: "application", description: "Checksum file", extensions: &["sum"], is_text: true },
            ContentType::Svg => TypeInfo { label: "svg", mime_type: "image/svg+xml", group: "image", description: "SVG Scalable Vector Graphics image data", extensions: &["svg"], is_text: true },
            ContentType::Swf => TypeInfo { label: "swf", mime_type: "application/x-shockwave-flash", group: "executable", description: "Small Web File", extensions: &["swf"], is_text: false },
            ContentType::Swift => TypeInfo { label: "swift", mime_type: "text/x-swift", group: "code", description: "Swift", extensions: &["swift"], is_text: true },
            ContentType::Tar => TypeInfo { label: "tar", mime_type: "application/x-tar", group: "archive", description: "POSIX tar archive", extensions: &["tar"], is_text: false },
            ContentType::Tcl => TypeInfo { label: "tcl", mime_type: "application/x-tcl", group: "text", description: "Tickle", extensions: &["tcl"], is_text: true },
            ContentType::Textproto => TypeInfo { label: "textproto", mime_type: "text/plain", group: "code", description: "Text protocol buffer", extensions: &["textproto", "textpb", "pbtxt"], is_text: true },
            ContentType::Tga => TypeInfo { label: "tga", mime_type: "image/x-tga", group: "image", description: "Targa image data", extensions: &["tga"], is_text: false },
            ContentType::Thumbsdb => TypeInfo { label: "thumbsdb", mime_type: "image/vnd.ms-thumb", group: "application", description: "Windows thumbnail cache", extensions: &[], is_text: false },
            ContentType::Tiff => TypeInfo { label: "tiff", mime_type: "image/tiff", group: "image", description: "TIFF image data", extensions: &["tiff", "tif"], is_text: false },
            ContentType::Toml => TypeInfo { label: "toml", mime_type: "application/toml", group: "text", description: "Tom's obvious, minimal language", extensions: &["toml"], is_text: true },
            ContentType::Torrent => TypeInfo { label: "torrent", mime_type: "application/x-bittorrent", group: "application", description: "BitTorrent file", extensions: &["torrent"], is_text: false },
            ContentType::Tsv => TypeInfo { label: "tsv", mime_type: "text/tsv", group: "code", description: "TSV document", extensions: &["tsv"], is_text: true },
            ContentType::Ttf => TypeInfo { label: "ttf", mime_type: "font/sfnt", group: "font", description: "TrueType Font data", extensions: &["ttf", "ttc"], is_text: false },
            ContentType::Twig => TypeInfo { label: "twig", mime_type: "text/x-twig", group: "code", description: "Twig template", extensions: &["twig"], is_text: true },
            ContentType::Txt => TypeInfo { label: "txt", mime_type: "text/plain", group: "text", description: "Generic text document", extensions: &["txt"], is_text: true },
            ContentType::Typescript => TypeInfo { label: "typescript", mime_type: "application/typescript", group: "text", description: "Typescript", extensions: &["ts", "mts", "cts"], is_text: true },
            ContentType::Undefined => TypeInfo { label: "undefined", mime_type: "application/undefined", group: "undefined", description: "Undefined", extensions: &[], is_text: false },
            ContentType::Unknown => TypeInfo { label: "unknown", mime_type: "application/octet-stream", group: "unknown", description: "Unknown binary data", extensions: &[], is_text: false },
            ContentType::Vba => TypeInfo { label: "vba", mime_type: "text/vbscript", group: "code", description: "MS Visual Basic source (VBA)", extensions: &["vbs", "vba", "vb"], is_text: true },
            ContentType::Vcxproj => TypeInfo { label: "vcxproj", mime_type: "application/xml", group: "code", description: "Visual Studio MSBuild project", extensions: &["vcxproj"], is_text: true },
            ContentType::Verilog => TypeInfo { label: "verilog", mime_type: "text/x-verilog", group: "code", description: "Verilog source", extensions: &["v", "verilog", "vlg", "vh"], is_text: true },
            ContentType::Vhdl => TypeInfo { label: "vhdl", mime_type: "text/x-vhdl", group: "code", description: "VHDL source", extensions: &["vhd"], is_text: true },
            ContentType::Vtt => TypeInfo { label: "vtt", mime_type: "text/vtt", group: "text", description: "Web Video Text Tracks", extensions: &["vtt", "webvtt"], is_text: true },
            ContentType::Vue => TypeInfo { label: "vue", mime_type: "application/javascript", group: "code", description: "Vue source", extensions: &["vue"], is_text: true },
            ContentType::Wasm => TypeInfo { label: "wasm", mime_type: "application/wasm", group: "executable", description: "Web Assembly", extensions: &["wasm"], is_text: false },
            ContentType::Wav => TypeInfo { label: "wav", mime_type: "audio/x-wav", group: "audio", description: "Waveform Audio file (WAV)", extensions: &["wav"], is_text: false },
            ContentType::Webm => TypeInfo { label: "webm", mime_type: "video/webm", group: "video", description: "WebM media file", extensions: &["webm"], is_text: false },
            ContentType::Webp => TypeInfo { label: "webp", mime_type: "image/webp", group: "image", description: "WebP media file", extensions: &["webp"], is_text: false },
            ContentType::Winregistry => TypeInfo { label: "winregistry", mime_type: "text/x-ms-regedit", group: "application", description: "Windows Registry text", extensions: &["reg"], is_text: true },
            ContentType::Wmf => TypeInfo { label: "wmf", mime_type: "image/wmf", group: "image", description: "Windows metafile", extensions: &["wmf"], is_text: false },
            ContentType::Woff => TypeInfo { label: "woff", mime_type: "font/woff", group: "font", description: "Web Open Font Format", extensions: &["woff"], is_text: false },
            ContentType::Woff2 => TypeInfo { label: "woff2", mime_type: "font/woff2", group: "font", description: "Web Open Font Format v2", extensions: &["woff2"], is_text: false },
            ContentType::Xar => TypeInfo { label: "xar", mime_type: "application/x-xar", group: "archive", description: "XAR archive compressed data", extensions: &["pkg", "xar"], is_text: false },
            ContentType::Xls => TypeInfo { label: "xls", mime_type: "application/vnd.ms-excel", group: "document", description: "Microsoft Excel CDF document", extensions: &["xls"], is_text: false },
            ContentType::Xlsb => TypeInfo { label: "xlsb", mime_type: "application/vnd.openxmlformats-officedocument.spreadsheetml.sheet", group: "document", description: "Microsoft Excel 2007+ document (binary format)", extensions: &["xlsb"], is_text: false },
            ContentType::Xlsx => TypeInfo { label: "xlsx", mime_type: "application/vnd.openxmlformats-officedocument.spreadsheetml.sheet", group: "document", description: "Microsoft Excel 2007+ document", extensions: &["xlsx", "xlsm"], is_text: false },
            ContentType::Xml => TypeInfo { label: "xml", mime_type: "text/xml", group: "code", description: "XML document", extensions: &["xml"], is_text: true },
            ContentType::Xpi => TypeInfo { label: "xpi", mime_type: "application/zip", group: "archive", description: "Compressed installation archive (XPI)", extensions: &["xpi"], is_text: false },
            ContentType::Xz => TypeInfo { label: "xz", mime_type: "application/x-xz", group: "archive", description: "XZ compressed data", extensions: &["xz"], is_text: false },
            ContentType::Yaml => TypeInfo { label: "yaml", mime_type: "application/x-yaml", group: "code", description: "YAML source", extensions: &["yml", "yaml"], is_text: true },
            ContentType::Yara => TypeInfo { label: "yara", mime_type: "text/x-yara", group: "code", description: "YARA rule", extensions: &["yar", "yara"], is_text: true },
            ContentType::Zig => TypeInfo { label: "zig", mime_type: "text/zig", group: "code", description: "Zig source", extensions: &["zig"], is_text: true },
            ContentType::Zip => TypeInfo { label: "zip", mime_type: "application/zip", group: "archive", description: "Zip archive data", extensions: &["zip"], is_text: false },
            ContentType::Zlibstream => TypeInfo { label: "zlibstream", mime_type: "application/zlib", group: "application", description: "zlib compressed data", extensions: &[], is_text: false },
        }
    }

    /// Position of the content type in the catalog.
    pub fn index(self) -> (r: usize)
        ensures
            r == self.spec_index(),
            r < CONTENT_TYPE_COUNT,
    {
        match self {
            ContentType::_3gp => 0,
            ContentType::Ace => 1,
            ContentType::Ai => 2,
            ContentType::Aidl => 3,
            ContentType::Apk => 4,
            ContentType::Applebplist => 5,
            ContentType::Appleplist => 6,
            ContentType::Asm => 7,
            ContentType::Asp => 8,
            ContentType::Autohotkey => 9,
            ContentType::Autoit => 10,
            ContentType::Awk => 11,
            ContentType::Batch => 12,
            ContentType::Bazel => 13,
            ContentType::Bib => 14,
            ContentType::Bmp => 15,
            ContentType::Bzip => 16,
            ContentType::C => 17,
            ContentType::Cab => 18,
            ContentType::Cat => 19,
            ContentType::Chm => 20,
            ContentType::Clojure => 21,
            ContentType::Cmake => 22,
            ContentType::Cobol => 23,
            ContentType::Coff => 24,
            ContentType::Coffeescript => 25,
            ContentType::Cpp => 26,
            ContentType::Crt => 27,
            ContentType::Crx => 28,
            ContentType::Cs => 29,
            ContentType::Csproj => 30,
            ContentType::Css => 31,
            ContentType::Csv => 32,
            ContentType::Dart => 33,
            ContentType::Deb => 34,
            ContentType::Dex => 35,
            ContentType::Dicom => 36,
            ContentType::Diff => 37,
            ContentType::Dm => 38,
            ContentType::Dmg => 39,
            ContentType::Doc => 40,
            ContentType::Dockerfile => 41,
            ContentType::Docx => 42,
            ContentType::Dsstore => 43,
            ContentType::Dwg => 44,
            ContentType::Dxf => 45,
            ContentType::Elf => 46,
            ContentType::Elixir => 47,
            ContentType::Emf => 48,
            ContentType::Eml => 49,
            ContentType::Empty => 50,
            ContentType::Epub => 51,
            ContentType::Erb => 52,
            ContentType::Erlang => 53,
            ContentType::Flac => 54,
            ContentType::Flv => 55,
            ContentType::Fortran => 56,
            ContentType::Gemfile => 57,
            ContentType::Gemspec => 58,
            ContentType::Gif => 59,
            ContentType::Gitattributes => 60,
            ContentType::Gitmodules => 61,
            ContentType::Go => 62,
            ContentType::Gradle => 63,
            ContentType::Groovy => 64,
            ContentType::Gzip => 65,
            ContentType::H5 => 66,
            ContentType::Handlebars => 67,
            ContentType::Haskell => 68,
            ContentType::Hcl => 69,
            ContentType::Hlp => 70,
            ContentType::Htaccess => 71,
            ContentType::Html => 72,
            ContentType::Icns => 73,
            ContentType::Ico => 74,
            ContentType::Ics => 75,
            ContentType::Ignorefile => 76,
            ContentType::Ini => 77,
            ContentType::Internetshortcut => 78,
            ContentType::Ipynb => 79,
            ContentType::Iso => 80,
            ContentType::Jar => 81,
            ContentType::Java => 82,
            ContentType::Javabytecode => 83,
            ContentType::Javascript => 84,
            ContentType::Jinja => 85,
            ContentType::Jp2 => 86,
            ContentType::Jpeg => 87,
            ContentType::Json => 88,
            ContentType::Jsonl => 89,
            ContentType::Julia => 90,
            ContentType::Kotlin => 91,
            ContentType::Latex => 92,
            ContentType::Lha => 93,
            ContentType::Lisp => 94,
            ContentType::Lnk => 95,
            ContentType::Lua => 96,
            ContentType::M3u => 97,
            ContentType::M4 => 98,
            ContentType::Macho => 99,
            ContentType::Makefile => 100,
            ContentType::Markdown => 101,
            ContentType::Matlab => 102,
            ContentType::Mht => 103,
            ContentType::Midi => 104,
            ContentType::Mkv => 105,
            ContentType::Mp3 => 106,
            ContentType::Mp4 => 107,
            ContentType::Mscompress => 108,
            ContentType::Msi => 109,
            ContentType::Mum => 110,
            ContentType::Npy => 111,
            ContentType::Npz => 112,
            ContentType::Nupkg => 113,
            ContentType::Objectivec => 114,
            ContentType::Ocaml => 115,
            ContentType::Odp => 116,
            ContentType::Ods => 117,
            ContentType::Odt => 118,
            ContentType::Ogg => 119,
            ContentType::One => 120,
            ContentType::Onnx => 121,
            ContentType::Otf => 122,
            ContentType::Outlook => 123,
            ContentType::Parquet => 124,
            ContentType::Pascal => 125,
            ContentType::Pcap => 126,
            ContentType::Pdb => 127,
            ContentType::Pdf => 128,
            ContentType::Pebin => 129,
            ContentType::Pem => 130,
            ContentType::Perl => 131,
            ContentType::Php => 132,
            ContentType::Pickle => 133,
            ContentType::Png => 134,
            ContentType::Po => 135,
            ContentType::Postscript => 136,
            ContentType::Powershell => 137,
            ContentType::Ppt => 138,
            ContentType::Pptx => 139,
            ContentType::Prolog => 140,
            ContentType::Proteindb => 141,
            ContentType::Proto => 142,
            ContentType::Psd => 143,
            ContentType::Python => 144,
            ContentType::Pythonbytecode => 145,
            ContentType::Pytorch => 146,
            ContentType::Qt => 147,
            ContentType::R => 148,
            ContentType::Rar => 149,
            ContentType::Rdf => 150,
            ContentType::Rpm => 151,
            ContentType::Rst => 152,
            ContentType::Rtf => 153,
            ContentType::Ruby => 154,
            ContentType::Rust => 155,
            ContentType::Scala => 156,
            ContentType::Scss => 157,
            ContentType::Sevenzip => 158,
            ContentType::Sgml => 159,
            ContentType::Shell => 160,
            ContentType::Smali => 161,
            ContentType::Snap => 162,
            ContentType::Solidity => 163,
            ContentType::Sql => 164,
            ContentType::Sqlite => 165,
            ContentType::Squashfs => 166,
            ContentType::Srt => 167,
            ContentType::Stlbinary => 168,
            ContentType::Stltext => 169,
            ContentType::Sum => 170,
            ContentType::Svg => 171,
            ContentType::Swf => 172,
            ContentType::Swift => 173,
            ContentType::Tar => 174,
            ContentType::Tcl => 175,
            ContentType::Textproto => 176,
            ContentType::Tga => 177,
            ContentType::Thumbsdb => 178,
            ContentType::Tiff => 179,
            ContentType::Toml => 180,
            ContentType::Torrent => 181,
            ContentType::Tsv => 182,
            ContentType::Ttf => 183,
            ContentType::Twig => 184,
            ContentType::Txt => 185,
            ContentType::Typescript => 186,
            ContentType::Undefined => 187,
            ContentType::Unknown => 188,
            ContentType::Vba => 189,
            ContentType::Vcxproj => 190,
            ContentType::Verilog => 191,
            ContentType::Vhdl => 192,
            ContentType::Vtt => 193,
            ContentType::Vue => 194,
            ContentType::Wasm => 195,
            ContentType::Wav => 196,
            ContentType::Webm => 197,
            ContentType::Webp => 198,
            ContentType::Winregistry => 199,
            ContentType::Wmf => 200,
            ContentType::Woff => 201,
            ContentType::Woff2 => 202,
            ContentType::Xar => 203,
            ContentType::Xls => 204,
            ContentType::Xlsb => 205,
            ContentType::Xlsx => 206,
            ContentType::Xml => 207,
            ContentType::Xpi => 208,
            ContentType::Xz => 209,
            ContentType::Yaml => 210,
            ContentType::Yara => 211,
            ContentType::Zig => 212,
            ContentType::Zip => 213,
            ContentType::Zlibstream => 214,
        }
    }

    /// The content type at position `i` of the catalog.
    pub fn from_index(i: usize) -> (r: ContentType)
        requires
            i < CONTENT_TYPE_COUNT,
        ensures
            r.spec_index() == i,
    {
        match i {
            0 => ContentType::_3gp,
            1 => ContentType::Ace,
            2 => ContentType::Ai,
            3 => ContentType::Aidl,
            4 => ContentType::Apk,
            5 => ContentType::Applebplist,
            6 => ContentType::Appleplist,
            7 => ContentType::Asm,
            8 => ContentType::Asp,
            9 => ContentType::Autohotkey,
            10 => ContentType::Autoit,
            11 => ContentType::Awk,
            12 => ContentType::Batch,
            13 => ContentType::Bazel,
            14 => ContentType::Bib,
            15 => ContentType::Bmp,
            16 => ContentType::Bzip,
            17 => ContentType::C,
            18 => ContentType::Cab,
            19 => ContentType::Cat,
            20 => ContentType::Chm,
            21 => ContentType::Clojure,
            22 => ContentType::Cmake,
            23 => ContentType::Cobol,
            24 => ContentType::Coff,
            25 => ContentType::Coffeescript,
            26 => ContentType::Cpp,
            27 => ContentType::Crt,
            28 => ContentType::Crx,
            29 => ContentType::Cs,
            30 => ContentType::Csproj,
            31 => ContentType::Css,
            32 => ContentType::Csv,
            33 => ContentType::Dart,
            34 => ContentType::Deb,
            35 => ContentType::Dex,
            36 => ContentType::Dicom,
            37 => ContentType::Diff,
            38 => ContentType::Dm,
            39 => ContentType::Dmg,
            40 => ContentType::Doc,
            41 => ContentType::Dockerfile,
            42 => ContentType::Docx,
            43 => ContentType::Dsstore,
            44 => ContentType::Dwg,
            45 => ContentType::Dxf,
            46 => ContentType::Elf,
            47 => ContentType::Elixir,
            48 => ContentType::Emf,
            49 => ContentType::Eml,
            50 => ContentType::Empty,
            51 => ContentType::Epub,
            52 => ContentType::Erb,
            53 => ContentType::Erlang,
            54 => ContentType::Flac,
            55 => ContentType::Flv,
            56 => ContentType::Fortran,
            57 => ContentType::Gemfile,
            58 => ContentType::Gemspec,
            59 => ContentType::Gif,
            60 => ContentType::Gitattributes,
            61 => ContentType::Gitmodules,
            62 => ContentType::Go,
            63 => ContentType::Gradle,
            64 => ContentType::Groovy,
            65 => ContentType::Gzip,
            66 => ContentType::H5,
            67 => ContentType::Handlebars,
            68 => ContentType::Haskell,
            69 => ContentType::Hcl,
            70 => ContentType::Hlp,
            71 => ContentType::Htaccess,
            72 => ContentType::Html,
            73 => ContentType::Icns,
            74 => ContentType::Ico,
            75 => ContentType::Ics,
            76 => ContentType::Ignorefile,
            77 => ContentType::Ini,
            78 => ContentType::Internetshortcut,
            79 => ContentType::Ipynb,
            80 => ContentType::Iso,
            81 => ContentType::Jar,
            82 => ContentType::Java,
            83 => ContentType::Javabytecode,
            84 => ContentType::Javascript,
            85 => ContentType::Jinja,
            86 => ContentType::Jp2,
            87 => ContentType::Jpeg,
            88 => ContentType::Json,
            89 => ContentType::Jsonl,
            90 => ContentType::Julia,
            91 => ContentType::Kotlin,
            92 => ContentType::Latex,
            93 => ContentType::Lha,
            94 => ContentType::Lisp,
            95 => ContentType::Lnk,
            96 => ContentType::Lua,
            97 => ContentType::M3u,
            98 => ContentType::M4,
            99 => ContentType::Macho,
            100 => ContentType::Makefile,
            101 => ContentType::Markdown,
            102 => ContentType::Matlab,
            103 => ContentType::Mht,
            104 => ContentType::Midi,
            105 => ContentType::Mkv,
            106 => ContentType::Mp3,
            107 => ContentType::Mp4,
            108 => ContentType::Mscompress,
            109 => ContentType::Msi,
            110 => ContentType::Mum,
            111 => ContentType::Npy,
            112 => ContentType::Npz,
            113 => ContentType::Nupkg,
            114 => ContentType::Objectivec,
            115 => ContentType::Ocaml,
            116 => ContentType::Odp,
            117 => ContentType::Ods,
            118 => ContentType::Odt,
            119 => ContentType::Ogg,
            120 => ContentType::One,
            121 => ContentType::Onnx,
            122 => ContentType::Otf,
            123 => ContentType::Outlook,
            124 => ContentType::Parquet,
            125 => ContentType::Pascal,
            126 => ContentType::Pcap,
            127 => ContentType::Pdb,
            128 => ContentType::Pdf,
            129 => ContentType::Pebin,
            130 => ContentType::Pem,
            131 => ContentType::Perl,
            132 => ContentType::Php,
            133 => ContentType::Pickle,
            134 => ContentType::Png,
            135 => ContentType::Po,
            136 => ContentType::Postscript,
            137 => ContentType::Powershell,
            138 => ContentType::Ppt,
            139 => ContentType::Pptx,
            140 => ContentType::Prolog,
            141 => ContentType::Proteindb,
            142 => ContentType::Proto,
            143 => ContentType::Psd,
            144 => ContentType::Python,
            145 => ContentType::Pythonbytecode,
            146 => ContentType::Pytorch,
            147 => ContentType::Qt,
            148 => ContentType::R,
            149 => ContentType::Rar,
            150 => ContentType::Rdf,
            151 => ContentType::Rpm,
            152 => ContentType::Rst,
            153 => ContentType::Rtf,
            154 => ContentType::Ruby,
            155 => ContentType::Rust,
            156 => ContentType::Scala,
            157 => ContentType::Scss,
            158 => ContentType::Sevenzip,
            159 => ContentType::Sgml,
            160 => ContentType::Shell,
            161 => ContentType::Smali,
            162 => ContentType::Snap,
            163 => ContentType::Solidity,
            164 => ContentType::Sql,
            165 => ContentType::Sqlite,
            166 => ContentType::Squashfs,
            167 => ContentType::Srt,
            168 => ContentType::Stlbinary,
            169 => ContentType::Stltext,
            170 => ContentType::Sum,
            171 => ContentType::Svg,
            172 => ContentType::Swf,
            173 => ContentType::Swift,
            174 => ContentType::Tar,
            175 => ContentType::Tcl,
            176 => ContentType::Textproto,
            177 => ContentType::Tga,
            178 => ContentType::Thumbsdb,
            179 => ContentType::Tiff,
            180 => ContentType::Toml,
            181 => ContentType::Torrent,
            182 => ContentType::Tsv,
            183 => ContentType::Ttf,
            184 => ContentType::Twig,
            185 => ContentType::Txt,
            186 => ContentType::Typescript,
            187 => ContentType::Undefined,
            188 => ContentType::Unknown,
            189 => ContentType::Vba,
            190 => ContentType::Vcxproj,
            191 => ContentType::Verilog,
            192 => ContentType::Vhdl,
            193 => ContentType::Vtt,
            194 => ContentType::Vue,
            195 => ContentType::Wasm,
            196 => ContentType::Wav,
            197 => ContentType::Webm,
            198 => ContentType::Webp,
            199 => ContentType::Winregistry,
            200 => ContentType::Wmf,
            201 => ContentType::Woff,
            202 => ContentType::Woff2,
            203 => ContentType::Xar,
            204 => ContentType::Xls,
            205 => ContentType::Xlsb,
            206 => ContentType::Xlsx,
            207 => ContentType::Xml,
            208 => ContentType::Xpi,
            209 => ContentType::Xz,
            210 => ContentType::Yaml,
            211 => ContentType::Yara,
            212 => ContentType::Zig,
            213 => ContentType::Zip,
            _ => ContentType::Zlibstream,
        }
    }

    /// Returns the content type information.
    pub fn info(self) -> (r: TypeInfo)
        ensures
            r == self.spec_info(),
    {
        match self {
            ContentType::_3gp => TypeInfo { label: "3gp", mime_type: "video/3gpp", group: "video", description: "3GPP multimedia file", extensions: &["3gp"], is_text: false },
            ContentType::Ace => TypeInfo { label: "ace", mime_type: "application/x-ace-compressed", group: "archive", description: "ACE archive", extensions: &["ace"], is_text: false },
            ContentType::Ai => TypeInfo { label: "ai", mime_type: "application/pdf", group: "document", description: "Adobe Illustrator Artwork", extensions: &["ai"], is_text: false },
            ContentType::Aidl => TypeInfo { label: "aidl", mime_type: "text/plain", group: "unknown", description: "Android Interface Definition Language", extensions: &["aidl"], is_text: true },
            ContentType::Apk => TypeInfo { label: "apk", mime_type: "application/vnd.android.package-archive", group: "executable", description: "Android package", extensions: &["apk"], is_text: false },
            ContentType::Applebplist => TypeInfo { label: "applebplist", mime_type: "application/x-bplist", group: "application", description: "Apple binary property list", extensions: &["bplist", "plist"], is_text: false },
            ContentType::Appleplist => TypeInfo { label: "appleplist", mime_type: "application/x-plist", group: "application", description: "Apple property list", extensions: &["plist"], is_text: true },
            ContentType::Asm => TypeInfo { label: "asm", mime_type: "text/x-asm", group: "code", description: "Assembly", extensions: &["s", "S", "asm"], is_text: true },
            ContentType::Asp => TypeInfo { label: "asp", mime_type: "text/html", group: "code", description: "ASP source", extensions: &["aspx", "asp"], is_text: true },
            ContentType::Autohotkey => TypeInfo { label: "autohotkey", mime_type: "text/plain", group: "code", description: "AutoHotKey script", extensions: &[], is_text: true },
            ContentType::Autoit => TypeInfo { label: "autoit", mime_type: "text/plain", group: "code", description: "AutoIt script", extensions: &["au3"], is_text: true },
            ContentType::Awk => TypeInfo { label: "awk", mime_type: "text/plain", group: "code", description: "Awk", extensions: &["awk"], is_text: true },
            ContentType::Batch => TypeInfo { label: "batch", mime_type: "text/x-msdos-batch", group: "code", description: "DOS batch file", extensions: &["bat"], is_text: true },
            ContentType::Bazel => TypeInfo { label: "bazel", mime_type: "text/plain", group: "code", description: "Bazel build file", extensions: &["bzl"], is_text: true },
            ContentType::Bib => TypeInfo { label: "bib", mime_type: "text/x-bibtex", group: "text", description: "BibTeX", extensions: &["bib"], is_text: true },
            ContentType::Bmp => TypeInfo { label: "bmp", mime_type: "image/bmp", group: "image", description: "BMP image data", extensions: &["bmp"], is_text: false },
            ContentType::Bzip => TypeInfo { label: "bzip", mime_type: "application/x-bzip2", group: "archive", description: "bzip2 compressed data", extensions: &["bz2", "tbz2", "tar.bz2"], is_text: false },
            ContentType::C => TypeInfo { label: "c", mime_type: "text/x-c", group: "code", description: "C source", extensions: &["c"], is_text: true },
            ContentType::Cab => TypeInfo { label: "cab", mime_type: "application/vnd.ms-cab-compressed", group: "archive", description: "Microsoft Cabinet archive data", extensions: &["cab"], is_text: false },
            ContentType::Cat => TypeInfo { label: "cat", mime_type: "application/octet-stream", group: "application", description: "Windows Catalog file", extensions: &["cat"], is_text: false },
            ContentType::Chm => TypeInfo { label: "chm", mime_type: "application/chm", group: "application", description: "MS Windows HtmlHelp Data", extensions: &["chm"], is_text: false },
            ContentType::Clojure => TypeInfo { label: "clojure", mime_type: "text/x-clojure", group: "code", description: "Clojure", extensions: &["clj", "cljs", "cljc", "cljr"], is_text: true },
            ContentType::Cmake => TypeInfo { label: "cmake", mime_type: "text/x-cmake", group: "code", description: "CMake build file", extensions: &["cmake"], is_text: true },
            ContentType::Cobol => TypeInfo { label: "cobol", mime_type: "text/x-cobol", group: "code", description: "Cobol", extensions: &["cbl", "cob", "cpy", "CBL", "COB", "CPY"], is_text: true },
            ContentType::Coff => TypeInfo { label: "coff", mime_type: "application/x-coff", group: "executable", description: "Intel 80386 COFF", extensions: &["obj", "o"], is_text: false },
            ContentType::Coffeescript => TypeInfo { label: "coffeescript", mime_type: "text/coffeescript", group: "code", description: "CoffeeScript", extensions: &["coffee"], is_text: true },
            ContentType::Cpp => TypeInfo { label: "cpp", mime_type: "text/x-c", group: "code", description: "C++ source", extensions: &["cc", "cpp", "cxx", "c++", "cppm", "ixx"], is_text: true },
            ContentType::Crt => TypeInfo { label: "crt", mime_type: "application/x-x509-ca-cert", group: "text", description: "Certificates (binary format)", extensions: &["der", "cer", "crt"], is_text: false },
            ContentType::Crx => TypeInfo { label: "crx", mime_type: "application/x-chrome-extension", group: "executable", description: "Google Chrome extension", extensions: &["crx"], is_text: false },
            ContentType::Cs => TypeInfo { label: "cs", mime_type: "text/plain", group: "code", description: "C# source", extensions: &["cs", "csx"], is_text: true },
            ContentType::Csproj => TypeInfo { label: "csproj", mime_type: "text/plain", group: "code", description: ".NET project config", extensions: &["csproj"], is_text: true },
            ContentType::Css => TypeInfo { label: "css", mime_type: "text/css", group: "code", description: "CSS source", extensions: &["css"], is_text: true },
            ContentType::Csv => TypeInfo { label: "csv", mime_type: "text/csv", group: "code", description: "CSV document", extensions: &["csv"], is_text: true },
            ContentType::Dart => TypeInfo { label: "dart", mime_type: "text/plain", group: "code", description: "Dart source", extensions: &["dart"], is_text: true },
            ContentType::Deb => TypeInfo { label: "deb", mime_type: "application/vnd.debian.binary-package", group: "archive", description: "Debian binary package", extensions: &["deb"], is_text: false },
            ContentType::Dex => TypeInfo { label: "dex", mime_type: "application/x-android-dex", group: "executable", description: "Dalvik dex file", extensions: &["dex"], is_text: false },
            ContentType::Dicom => TypeInfo { label: "dicom", mime_type: "application/dicom", group: "image", description: "DICOM", extensions: &["dcm"], is_text: false },
            ContentType::Diff => TypeInfo { label: "diff", mime_type: "text/plain", group: "text", description: "Diff file", extensions: &["diff", "patch"], is_text: true },
            ContentType::Dm => TypeInfo { label: "dm", mime_type: "text/plain", group: "text", description: "Dream Maker", extensions: &["dm"], is_text: true },
            ContentType::Dmg => TypeInfo { label: "dmg", mime_type: "application/x-apple-diskimage", group: "archive", description: "Apple disk image", extensions: &["dmg"], is_text: false },
            ContentType::Doc => TypeInfo { label: "doc", mime_type: "application/msword", group: "document", description: "Microsoft Word CDF document", extensions: &["doc"], is_text: false },
            ContentType::Dockerfile => TypeInfo { label: "dockerfile", mime_type: "text/x-dockerfile", group: "code", description: "Dockerfile", extensions: &[], is_text: true },
            ContentType::Docx => TypeInfo { label: "docx", mime_type: "application/vnd.openxmlformats-officedocument.wordprocessingml.document", group: "document", description: "Microsoft Word 2007+ document", extensions: &["docx", "docm"], is_text: false },
            ContentType::Dsstore => TypeInfo { label: "dsstore", mime_type: "application/octet-stream", group: "unknown", description: "Application Desktop Services Store", extensions: &[], is_text: false },
            ContentType::Dwg => TypeInfo { label: "dwg", mime_type: "image/x-dwg", group: "image", description: "Autocad Drawing", extensions: &["dwg"], is_text: false },
            ContentType::Dxf => TypeInfo { label: "dxf", mime_type: "image/vnd.dxf", group: "image", description: "Audocad Drawing Exchange Format", extensions: &["dxf"], is_text: true },
            ContentType::Elf => TypeInfo { label: "elf", mime_type: "application/x-executable-elf", group: "executable", description: "ELF executable", extensions: &["elf"], is_text: false },
            ContentType::Elixir => TypeInfo { label: "elixir", mime_type: "text/plain", group: "code", description: "Elixir script", extensions: &["exs"], is_text: true },
            ContentType::Emf => TypeInfo { label: "emf", mime_type: "application/octet-stream", group: "application", description: "Windows Enhanced Metafile image data", extensions: &["emf"], is_text: false },
            ContentType::Eml => TypeInfo { label: "eml", mime_type: "message/rfc822", group: "text", description: "RFC 822 mail", extensions: &["eml"], is_text: true },
            ContentType::Empty => TypeInfo { label: "empty", mime_type: "inode/x-empty", group: "inode", description: "Empty file", extensions: &[], is_text: false },
            ContentType::Epub => TypeInfo { label: "epub", mime_type: "application/epub+zip", group: "document", description: "EPUB document", extensions: &["epub"], is_text: false },
            ContentType::Erb => TypeInfo { label: "erb", mime_type: "text/x-ruby", group: "code", description: "Embedded Ruby source", extensions: &["erb"], is_text: true },
            ContentType::Erlang => TypeInfo { label: "erlang", mime_type: "text/x-erlang", group: "code", description: "Erlang source", extensions: &["erl", "hrl"], is_text: true },
            ContentType::Flac => TypeInfo { label: "flac", mime_type: "audio/flac", group: "audio", description: "FLAC audio bitstream data", extensions: &["flac"], is_text: false },
            ContentType::Flv => TypeInfo { label: "flv", mime_type: "video/x-flv", group: "video", description: "Flash Video", extensions: &["flv"], is_text: false },
            ContentType::Fortran => TypeInfo { label: "fortran", mime_type: "text/x-fortran", group: "document", description: "Fortran", extensions: &["f90", "f95", "f03", "F90"], is_text: true },
            ContentType::Gemfile => TypeInfo { label: "gemfile", mime_type: "text/plain", group: "code", description: "Gemfile file", extensions: &[], is_text: true },
            ContentType::Gemspec => TypeInfo { label: "gemspec", mime_type: "text/plain", group: "code", description: "Gemspec file", extensions: &["gemspec"], is_text: true },
            ContentType::Gif => TypeInfo { label: "gif", mime_type: "image/gif", group: "image", description: "GIF image data", extensions: &["gif"], is_text: false },
            ContentType::Gitattributes => TypeInfo { label: "gitattributes", mime_type: "text/plain", group: "code", description: "Gitattributes file", extensions: &[], is_text: true },
            ContentType::Gitmodules => TypeInfo { label: "gitmodules", mime_type: "text/plain", group: "code", description: "Gitmodules file", extensions: &[], is_text: true },
            ContentType::Go => TypeInfo { label: "go", mime_type: "text/x-golang", group: "code", description: "Golang source", extensions: &["go"], is_text: true },
            ContentType::Gradle => TypeInfo { label: "gradle", mime_type: "text/x-groovy", group: "code", description: "Gradle source", extensions: &["gradle"], is_text: true },
            ContentType::Groovy => TypeInfo { label: "groovy", mime_type: "text/x-groovy", group: "code", description: "Groovy source", extensions: &["groovy"], is_text: true },
            ContentType::Gzip => TypeInfo { label: "gzip", mime_type: "application/gzip", group: "archive", description: "gzip compressed data", extensions: &["gz", "gzip", "tgz", "tar.gz"], is_text: false },
            ContentType::H5 => TypeInfo { label: "h5", mime_type: "application/x-hdf5", group: "archive", description: "Hierarchical Data Format v5", extensions: &["h5", "hdf5"], is_text: false },
            ContentType::Handlebars => TypeInfo { label: "handlebars", mime_type: "text/x-handlebars-template", group: "code", description: "Handlebars source", extensions: &["hbs", "handlebars"], is_text: true },
            ContentType::Haskell => TypeInfo { label: "haskell", mime_type: "text/plain", group: "code", description: "Haskell source", extensions: &["hs", "lhs"], is_text: true },
            ContentType::Hcl => TypeInfo { label: "hcl", mime_type: "text/x-hcl", group: "code", description: "HashiCorp configuration language", extensions: &["hcl"], is_text: true },
            ContentType::Hlp => TypeInfo { label: "hlp", mime_type: "application/winhlp", group: "application", description: "MS Windows help", extensions: &["hlp"], is_text: false },
            ContentType::Htaccess => TypeInfo { label: "htaccess", mime_type: "text/x-apache-conf", group: "code", description: "Apache access configuration", extensions: &[], is_text: true },
            ContentType::Html => TypeInfo { label: "html", mime_type: "text/html", group: "code", description: "HTML document", extensions: &["html", "htm", "xhtml", "xht"], is_text: true },
            ContentType::Icns => TypeInfo { label: "icns", mime_type: "image/x-icns", group: "image", description: "Mac OS X icon", extensions: &["icns"], is_text: false },
            ContentType::Ico => TypeInfo { label: "ico", mime_type: "image/vnd.microsoft.icon", group: "image", description: "MS Windows icon resource", extensions: &["ico"], is_text: false },
            ContentType::Ics => TypeInfo { label: "ics", mime_type: "text/calendar", group: "application", description: "Internet Calendaring and Scheduling", extensions: &["ics"], is_text: true },
            ContentType::Ignorefile => TypeInfo { label: "ignorefile", mime_type: "text/plain", group: "code", description: "Ignorefile", extensions: &[], is_text: true },
            ContentType::Ini => TypeInfo { label: "ini", mime_type: "text/plain", group: "text", description: "INI configuration file", extensions: &["ini"], is_text: true },
            ContentType::Internetshortcut => TypeInfo { label: "internetshortcut", mime_type: "application/x-mswinurl", group: "application", description: "MS Windows Internet shortcut", extensions: &["url"], is_text: true },
            ContentType::Ipynb => TypeInfo { label: "ipynb", mime_type: "application/json", group: "code", description: "Jupyter notebook", extensions: &["ipynb"], is_text: true },
            ContentType::Iso => TypeInfo { label: "iso", mime_type: "application/x-iso9660-image", group: "archive", description: "ISO 9660 CD-ROM filesystem data", extensions: &["iso"], is_text: false },
            ContentType::Jar => TypeInfo { label: "jar", mime_type: "application/java-archive", group: "archive", description: "Java archive data (JAR)", extensions: &["jar", "klib"], is_text: false },
            ContentType::Java => TypeInfo { label: "java", mime_type: "text/x-java", group: "code", description: "Java source", extensions: &["java"], is_text: true },
            ContentType::Javabytecode => TypeInfo { label: "javabytecode", mime_type: "application/x-java-applet", group: "executable", description: "Java compiled bytecode", extensions: &["class"], is_text: false },
            ContentType::Javascript => TypeInfo { label: "javascript", mime_type: "application/javascript", group: "code", description: "JavaScript source", extensions: &["js", "mjs", "cjs"], is_text: true },
            ContentType::Jinja => TypeInfo { label: "jinja", mime_type: "text/x-jinja2-template", group: "code", description: "Jinja template", extensions: &["jinja", "jinja2", "j2"], is_text: true },
            ContentType::Jp2 => TypeInfo { label: "jp2", mime_type: "image/jpeg2000", group: "image", description: "jpeg2000", extensions: &["jp2"], is_text: false },
            ContentType::Jpeg => TypeInfo { label: "jpeg", mime_type: "image/jpeg", group: "image", description: "JPEG image data", extensions: &["jpg", "jpeg"], is_text: false },
            ContentType::Json => TypeInfo { label: "json", mime_type: "application/json", group: "code", description: "JSON document", extensions: &["json"], is_text: true },
            ContentType::Jsonl => TypeInfo { label: "jsonl", mime_type: "application/json", group: "code", description: "JSONL document", extensions: &["jsonl", "jsonld"], is_text: true },
            ContentType::Julia => TypeInfo { label: "julia", mime_type: "text/x-julia", group: "code", description: "Julia source", extensions: &["jl"], is_text: true },
            ContentType::Kotlin => TypeInfo { label: "kotlin", mime_type: "text/plain", group: "code", description: "Kotlin source", extensions: &["kt", "kts"], is_text: true },
            ContentType::Latex => TypeInfo { label: "latex", mime_type: "text/x-tex", group: "text", description: "LaTeX document", extensions: &["tex", "sty"], is_text: true },
            ContentType::Lha => TypeInfo { label: "lha", mime_type: "application/x-lha", group: "archive", description: "LHarc archive", extensions: &["lha", "lzh"], is_text: false },
            ContentType::Lisp => TypeInfo { label: "lisp", mime_type: "text/x-lisp", group: "code", description: "Lisp source", extensions: &["lisp", "lsp", "l", "cl"], is_text: true },
            ContentType::Lnk => TypeInfo { label: "lnk", mime_type: "application/x-ms-shortcut", group: "application", description: "MS Windows shortcut", extensions: &["lnk"], is_text: false },
            ContentType::Lua => TypeInfo { label: "lua", mime_type: "text/plain", group: "text", description: "Lua", extensions: &["lua"], is_text: true },
            ContentType::M3u => TypeInfo { label: "m3u", mime_type: "text/plain", group: "application", description: "M3U playlist", extensions: &["m3u8", "m3u"], is_text: true },
            ContentType::M4 => TypeInfo { label: "m4", mime_type: "text/plain", group: "code", description: "GNU Macro", extensions: &["m4"], is_text: true },
            ContentType::Macho => TypeInfo { label: "macho", mime_type: "application/x-mach-o", group: "executable", description: "Mach-O executable", extensions: &[], is_text: false },
            ContentType::Makefile => TypeInfo { label: "makefile", mime_type: "text/x-makefile", group: "code", description: "Makefile source", extensions: &[], is_text: true },
            ContentType::Markdown => TypeInfo { label: "markdown", mime_type: "text/markdown", group: "text", description: "Markdown document", extensions: &["md", "markdown"], is_text: true },
            ContentType::Matlab => TypeInfo { label: "matlab", mime_type: "text/x-matlab", group: "code", description: "Matlab Source", extensions: &["m", "matlab"], is_text: true },
            ContentType::Mht => TypeInfo { label: "mht", mime_type: "application/x-mimearchive", group: "code", description: "MHTML document", extensions: &["mht"], is_text: true },
            ContentType::Midi => TypeInfo { label: "midi", mime_type: "audio/midi", group: "audio", description: "Midi", extensions: &["mid"], is_text: false },
            ContentType::Mkv => TypeInfo { label: "mkv", mime_type: "video/x-matroska", group: "video", description: "Matroska", extensions: &["mkv"], is_text: false },
            ContentType::Mp3 => TypeInfo { label: "mp3", mime_type: "audio/mpeg", group: "audio", description: "MP3 media file", extensions: &["mp3"], is_text: false },
            ContentType::Mp4 => TypeInfo { label: "mp4", mime_type: "video/mp4", group: "video", description: "MP4 media file", extensions: &["mp4"], is_text: false },
            ContentType::Mscompress => TypeInfo { label: "mscompress", mime_type: "application/x-ms-compress-szdd", group: "archive", description: "MS Compress archive data", extensions: &[], is_text: false },
            ContentType::Msi => TypeInfo { label: "msi", mime_type: "application/x-msi", group: "archive", description: "Microsoft Installer file", extensions: &["msi"], is_text: false },
            ContentType::Mum => TypeInfo { label: "mum", mime_type: "text/xml", group: "application", description: "Windows Update Package file", extensions: &["mum"], is_text: true },
            ContentType::Npy => TypeInfo { label: "npy", mime_type: "application/octet-stream", group: "archive", description: "Numpy Array", extensions: &["npy"], is_text: false },
            ContentType::Npz => TypeInfo { label: "npz", mime_type: "application/octet-stream", group: "archive", description: "Numpy Arrays Archive", extensions: &["npz"], is_text: false },
            ContentType::Nupkg => TypeInfo { label: "nupkg", mime_type: "application/octet-stream", group: "unknown", description: "NuGet Package", extensions: &["nupkg"], is_text: false },
            ContentType::Objectivec => TypeInfo { label: "objectivec", mime_type: "text/x-objcsrc", group: "code", description: "ObjectiveC source", extensions: &["m", "mm"], is_text: true },
            ContentType::Ocaml => TypeInfo { label: "ocaml", mime_type: "text-ocaml", group: "text", description: "OCaml", extensions: &["ml", "mli"], is_text: true },
            ContentType::Odp => TypeInfo { label: "odp", mime_type: "application/vnd.oasis.opendocument.presentation", group: "document", description: "OpenDocument Presentation", extensions: &["odp"], is_text: false },
            ContentType::Ods => TypeInfo { label: "ods", mime_type: "application/vnd.oasis.opendocument.spreadsheet", group: "document", description: "OpenDocument Spreadsheet", extensions: &["ods"], is_text: false },
            ContentType::Odt => TypeInfo { label: "odt", mime_type: "application/vnd.oasis.opendocument.text", group: "document", description: "OpenDocument Text", extensions: &["odt"], is_text: false },
            ContentType::Ogg => TypeInfo { label: "ogg", mime_type: "audio/ogg", group: "audio", description: "Ogg data", extensions: &["ogg"], is_text: false },
            ContentType::One => TypeInfo { label: "one", mime_type: "application/msonenote", group: "document", description: "One Note", extensions: &["one"], is_text: false },
            ContentType::Onnx => TypeInfo { label: "onnx", mime_type: "application/octet-stream", group: "archive", description: "Open Neural Network Exchange", extensions: &["onnx"], is_text: false },
            ContentType::Otf => TypeInfo { label: "otf", mime_type: "font/otf", group: "font", description: "OpenType font", extensions: &["otf"], is_text: false },
            ContentType::Outlook => TypeInfo { label: "outlook", mime_type: "application/vnd.ms-outlook", group: "application", description: "MS Outlook Message", extensions: &[], is_text: false },
            ContentType::Parquet => TypeInfo { label: "parquet", mime_type: "application/vnd.apache.parquet", group: "unknown", description: "Apache Parquet", extensions: &["pqt", "parquet"], is_text: false },
            ContentType::Pascal => TypeInfo { label: "pascal", mime_type: "text/x-pascal", group: "code", description: "Pascal source", extensions: &["pas", "pp"], is_text: true },
            ContentType::Pcap => TypeInfo { label: "pcap", mime_type: "application/vnd.tcpdump.pcap", group: "application", description: "pcap capture file", extensions: &["pcap", "pcapng"], is_text: false },
            ContentType::Pdb => TypeInfo { label: "pdb", mime_type: "application/octet-stream", group: "application", description: "Windows Program Database", extensions: &["pdb"], is_text: false },
            ContentType::Pdf => TypeInfo { label: "pdf", mime_type: "application/pdf", group: "document", description: "PDF document", extensions: &["pdf"], is_text: false },
            ContentType::Pebin => TypeInfo { label: "pebin", mime_type: "application/x-dosexec", group: "executable", description: "PE Windows executable", extensions: &["exe", "dll"], is_text: false },
            ContentType::Pem => TypeInfo { label: "pem", mime_type: "application/x-pem-file", group: "application", description: "PEM certificate", extensions: &["pem", "pub", "gpg"], is_text: true },
            ContentType::Perl => TypeInfo { label: "perl", mime_type: "text/x-perl", group: "code", description: "Perl source", extensions: &["pl"], is_text: true },
            ContentType::Php => TypeInfo { label: "php", mime_type: "text/x-php", group: "code", description: "PHP source", extensions: &["php"], is_text: true },
            ContentType::Pickle => TypeInfo { label: "pickle", mime_type: "application/octet-stream", group: "application", description: "Python pickle", extensions: &["pickle", "pkl"], is_text: false },
            ContentType::Png => TypeInfo { label: "png", mime_type: "image/png", group: "image", description: "PNG image", extensions: &["png"], is_text: false },
            ContentType::Po => TypeInfo { label: "po", mime_type: "text/gettext-translation", group: "application", description: "Portable Object (PO) for i18n", extensions: &["po"], is_text: true },
            ContentType::Postscript => TypeInfo { label: "postscript", mime_type: "application/postscript", group: "document", description: "PostScript document", extensions: &["ps"], is_text: false },
            ContentType::Powershell => TypeInfo { label: "powershell", mime_type: "application/x-powershell", group: "code", description: "Powershell source", extensions: &["ps1"], is_text: true },
            ContentType::Ppt => TypeInfo { label: "ppt", mime_type: "application/vnd.ms-powerpoint", group: "document", description: "Microsoft PowerPoint CDF document", extensions: &["ppt"], is_text: false },
            ContentType::Pptx => TypeInfo { label: "pptx", mime_type: "application/vnd.openxmlformats-officedocument.presentationml.presentation", group: "document", description: "Microsoft PowerPoint 2007+ document", extensions: &["pptx", "pptm"], is_text: false },
            ContentType::Prolog => TypeInfo { label: "prolog", mime_type: "text/x-prolog", group: "code", description: "Prolog source", extensions: &["pl", "pro", "P"], is_text: true },
            ContentType::Proteindb => TypeInfo { label: "proteindb", mime_type: "application/octet-stream", group: "application", description: "Protein DB", extensions: &["pdb"], is_text: true },
            ContentType::Proto => TypeInfo { label: "proto", mime_type: "text/x-proto", group: "code", description: "Protocol buffer definition", extensions: &["proto"], is_text: true },
            ContentType::Psd => TypeInfo { label: "psd", mime_type: "image/vnd.adobe.photoshop", group: "image", description: "Adobe Photoshop", extensions: &["psd"], is_text: false },
            ContentType::Python => TypeInfo { label: "python", mime_type: "text/x-python", group: "code", description: "Python source", extensions: &["py", "pyi"], is_text: true },
            ContentType::Pythonbytecode => TypeInfo { label: "pythonbytecode", mime_type: "application/x-bytecode.python", group: "executable", description: "Python compiled bytecode", extensions: &["pyc", "pyo"], is_text: false },
            ContentType::Pytorch => TypeInfo { label: "pytorch", mime_type: "application/octet-stream", group: "application", description: "Pytorch storage file", extensions: &["pt", "pth"], is_text: false },
            ContentType::Qt => TypeInfo { label: "qt", mime_type: "video/quicktime", group: "video", description: "QuickTime", extensions: &["mov"], is_text: false },
            ContentType::R => TypeInfo { label: "r", mime_type: "text/x-R", group: "code", description: "R (language)", extensions: &["R"], is_text: true },
            ContentType::Rar => TypeInfo { label: "rar", mime_type: "application/x-rar", group: "archive", description: "RAR archive data", extensions: &["rar"], is_text: false },
            ContentType::Rdf => TypeInfo { label: "rdf", mime_type: "application/rdf+xml", group: "text", description: "Resource Description Framework document (RDF)", extensions: &["rdf"], is_text: true },
            ContentType::Rpm => TypeInfo { label: "rpm", mime_type: "application/x-rpm", group: "archive", description: "RedHat Package Manager archive (RPM)", extensions: &["rpm"], is_text: false },
            ContentType::Rst => TypeInfo { label: "rst", mime_type: "text/x-rst", group: "text", description: "ReStructuredText document", extensions: &["rst"], is_text: true },
            ContentType::Rtf => TypeInfo { label: "rtf", mime_type: "text/rtf", group: "text", description: "Rich Text Format document", extensions: &["rtf"], is_text: true },
            ContentType::Ruby => TypeInfo { label: "ruby", mime_type: "application/x-ruby", group: "code", description: "Ruby source", extensions: &["rb"], is_text: true },
            ContentType::Rust => TypeInfo { label: "rust", mime_type: "application/x-rust", group: "code", description: "Rust source", extensions: &["rs"], is_text: true },
            ContentType::Scala => TypeInfo { label: "scala", mime_type: "application/x-scala", group: "code", description: "Scala source", extensions: &["scala"], is_text: true },
            ContentType::Scss => TypeInfo { label: "scss", mime_type: "text/x-scss", group: "code", description: "SCSS source", extensions: &["scss"], is_text: true },
            ContentType::Sevenzip => TypeInfo { label: "sevenzip", mime_type: "application/x-7z-compressed", group: "archive", description: "7-zip archive data", extensions: &["7z"], is_text: false },
            ContentType::Sgml => TypeInfo { label: "sgml", mime_type: "application/sgml", group: "text", description: "sgml", extensions: &["sgml"], is_text: true },
            ContentType::Shell => TypeInfo { label: "shell", mime_type: "text/x-shellscript", group: "code", description: "Shell script", extensions: &["sh"], is_text: true },
            ContentType::Smali => TypeInfo { label: "smali", mime_type: "application/x-smali", group: "code", description: "Smali source", extensions: &["smali"], is_text: true },
            ContentType::Snap => TypeInfo { label: "snap", mime_type: "application/octet-stream", group: "archive", description: "Snap archive", extensions: &["snap"], is_text: false },
            ContentType::Solidity => TypeInfo { label: "solidity", mime_type: "text/plain", group: "code", description: "Solidity source", extensions: &["sol"], is_text: true },
            ContentType::Sql => TypeInfo { label: "sql", mime_type: "application/x-sql", group: "code", description: "SQL source", extensions: &["sql"], is_text: true },
            ContentType::Sqlite => TypeInfo { label: "sqlite", mime_type: "application/octet-stream", group: "application", description: "SQLITE database", extensions: &["sqlite", "sqlite3"], is_text: false },
            ContentType::Squashfs => TypeInfo { label: "squashfs", mime_type: "application/octet-stream", group: "archive", description: "Squash filesystem", extensions: &[], is_text: false },
            ContentType::Srt => TypeInfo { label: "srt", mime_type: "text/srt", group: "application", description: "SubRip Text Format", extensions: &["srt"], is_text: true },
            ContentType::Stlbinary => TypeInfo { label: "stlbinary", mime_type: "application/sla", group: "image", description: "Stereolithography CAD (binary)", extensions: &["stl"], is_text: false },
            ContentType::Stltext => TypeInfo { label: "stltext", mime_type: "application/sla", group: "image", description: "Stereolithography CAD (text)", extensions: &["stl"], is_text: true },
            ContentType::Sum => TypeInfo { label: "sum", mime_type: "text/plain", group: "application", description: "Checksum file", extensions: &["sum"], is_text: true },
            ContentType::Svg => TypeInfo { label: "svg", mime_type: "image/svg+xml", group: "image", description: "SVG Scalable Vector Graphics image data", extensions: &["svg"], is_text: true },
            ContentType::Swf => TypeInfo { label: "swf", mime_type: "application/x-shockwave-flash", group: "executable", description: "Small Web File", extensions: &["swf"], is_text: false },
            ContentType::Swift => TypeInfo { label: "swift", mime_type: "text/x-swift", group: "code", description: "Swift", extensions: &["swift"], is_text: true },
            ContentType::Tar => TypeInfo { label: "tar", mime_type: "application/x-tar", group: "archive", description: "POSIX tar archive", extensions: &["tar"], is_text: false },
            ContentType::Tcl => TypeInfo { label: "tcl", mime_type: "application/x-tcl", group: "text", description: "Tickle", extensions: &["tcl"], is_text: true },
            ContentType::Textproto => TypeInfo { label: "textproto", mime_type: "text/plain", group: "code", description: "Text protocol buffer", extensions: &["textproto", "textpb", "pbtxt"], is_text: true },
            ContentType::Tga => TypeInfo { label: "tga", mime_type: "image/x-tga", group: "image", description: "Targa image data", extensions: &["tga"], is_text: false },
            ContentType::Thumbsdb => TypeInfo { label: "thumbsdb", mime_type: "image/vnd.ms-thumb", group: "application", description: "Windows thumbnail cache", extensions: &[], is_text: false },
            ContentType::Tiff => TypeInfo { label: "tiff", mime_type: "image/tiff", group: "image", description: "TIFF image data", extensions: &["tiff", "tif"], is_text: false },
            ContentType::Toml => TypeInfo { label: "toml", mime_type: "application/toml", group: "text", description: "Tom's obvious, minimal language", extensions: &["toml"], is_text: true },
            ContentType::Torrent => TypeInfo { label: "torrent", mime_type: "application/x-bittorrent", group: "application", description: "BitTorrent file", extensions: &["torrent"], is_text: false },
            ContentType::Tsv => TypeInfo { label: "tsv", mime_type: "text/tsv", group: "code", description: "TSV document", extensions: &["tsv"], is_text: true },
            ContentType::Ttf => TypeInfo { label: "ttf", mime_type: "font/sfnt", group: "font", description: "TrueType Font data", extensions: &["ttf", "ttc"], is_text: false },
            ContentType::Twig => TypeInfo { label: "twig", mime_type: "text/x-twig", group: "code", description: "Twig template", extensions: &["twig"], is_text: true },
            ContentType::Txt => TypeInfo { label: "txt", mime_type: "text/plain", group: "text", description: "Generic text document", extensions: &["txt"], is_text: true },
            ContentType::Typescript => TypeInfo { label: "typescript", mime_type: "application/typescript", group: "text", description: "Typescript", extensions: &["ts", "mts", "cts"], is_text: true },
            ContentType::Undefined => TypeInfo { label: "undefined", mime_type: "application/undefined", group: "undefined", description: "Undefined", extensions: &[], is_text: false },
            ContentType::Unknown => TypeInfo { label: "unknown", mime_type: "application/octet-stream", group: "unknown", description: "Unknown binary data", extensions: &[], is_text: false },
            ContentType::Vba => TypeInfo { label: "vba", mime_type: "text/vbscript", group: "code", description: "MS Visual Basic source (VBA)", extensions: &["vbs", "vba", "vb"], is_text: true },
            ContentType::Vcxproj => TypeInfo { label: "vcxproj", mime_type: "application/xml", group: "code", description: "Visual Studio MSBuild project", extensions: &["vcxproj"], is_text: true },
            ContentType::Verilog => TypeInfo { label: "verilog", mime_type: "text/x-verilog", group: "code", description: "Verilog source", extensions: &["v", "verilog", "vlg", "vh"], is_text: true },
            ContentType::Vhdl => TypeInfo { label: "vhdl", mime_type: "text/x-vhdl", group: "code", description: "VHDL source", extensions: &["vhd"], is_text: true },
            ContentType::Vtt => TypeInfo { label: "vtt", mime_type: "text/vtt", group: "text", description: "Web Video Text Tracks", extensions: &["vtt", "webvtt"], is_text: true },
            ContentType::Vue => TypeInfo { label: "vue", mime_type: "application/javascript", group: "code", description: "Vue source", extensions: &["vue"], is_text: true },
            ContentType::Wasm => TypeInfo { label: "wasm", mime_type: "application/wasm", group: "executable", description: "Web Assembly", extensions: &["wasm"], is_text: false },
            ContentType::Wav => TypeInfo { label: "wav", mime_type: "audio/x-wav", group: "audio", description: "Waveform Audio file (WAV)", extensions: &["wav"], is_text: false },
            ContentType::Webm => TypeInfo { label: "webm", mime_type: "video/webm", group: "video", description: "WebM media file", extensions: &["webm"], is_text: false },
            ContentType::Webp => TypeInfo { label: "webp", mime_type: "image/webp", group: "image", description: "WebP media file", extensions: &["webp"], is_text: false },
            ContentType::Winregistry => TypeInfo { label: "winregistry", mime_type: "text/x-ms-regedit", group: "application", description: "Windows Registry text", extensions: &["reg"], is_text: true },
            ContentType::Wmf => TypeInfo { label: "wmf", mime_type: "image/wmf", group: "image", description: "Windows metafile", extensions: &["wmf"], is_text: false },
            ContentType::Woff => TypeInfo { label: "woff", mime_type: "font/woff", group: "font", description: "Web Open Font Format", extensions: &["woff"], is_text: false },
            ContentType::Woff2 => TypeInfo { label: "woff2", mime_type: "font/woff2", group: "font", description: "Web Open Font Format v2", extensions: &["woff2"], is_text: false },
            ContentType::Xar => TypeInfo { label: "xar", mime_type: "application/x-xar", group: "archive", description: "XAR archive compressed data", extensions: &["pkg", "xar"], is_text: false },
            ContentType::Xls => TypeInfo { label: "xls", mime_type: "application/vnd.ms-excel", group: "document", description: "Microsoft Excel CDF document", extensions: &["xls"], is_text: false },
            ContentType::Xlsb => TypeInfo { label: "xlsb", mime_type: "application/vnd.openxmlformats-officedocument.spreadsheetml.sheet", group: "document", description: "Microsoft Excel 2007+ document (binary format)", extensions: &["xlsb"], is_text: false },
            ContentType::Xlsx => TypeInfo { label: "xlsx", mime_type: "application/vnd.openxmlformats-officedocument.spreadsheetml.sheet", group: "document", description: "Microsoft Excel 2007+ document", extensions: &["xlsx", "xlsm"], is_text: false },
            ContentType::Xml => TypeInfo { label: "xml", mime_type: "text/xml", group: "code", description: "XML document", extensions: &["xml"], is_text: true },
            ContentType::Xpi => TypeInfo { label: "xpi", mime_type: "application/zip", group: "archive", description: "Compressed installation archive (XPI)", extensions: &["xpi"], is_text: false },
            ContentType::Xz => TypeInfo { label: "xz", mime_type: "application/x-xz", group: "archive", description: "XZ compressed data", extensions: &["xz"], is_text: false },
            ContentType::Yaml => TypeInfo { label: "yaml", mime_type: "application/x-yaml", group: "code", description: "YAML source", extensions: &["yml", "yaml"], is_text: true },
            ContentType::Yara => TypeInfo { label: "yara", mime_type: "text/x-yara", group: "code", description: "YARA rule", extensions: &["yar", "yara"], is_text: true },
            ContentType::Zig => TypeInfo { label: "zig", mime_type: "text/zig", group: "code", description: "Zig source", extensions: &["zig"], is_text: true },
            ContentType::Zip => TypeInfo { label: "zip", mime_type: "application/zip", group: "archive", description: "Zip archive data", extensions: &["zip"], is_text: false },
            ContentType::Zlibstream => TypeInfo { label: "zlibstream", mime_type: "application/zlib", group: "application", description: "zlib compressed data", extensions: &[], is_text: false },
        }
    }
}

/// Information reported for a directory.
pub open spec fn spec_directory_info() -> TypeInfo {
    TypeInfo { label: "directory", mime_type: "inode/directory", group: "inode", description: "A directory", extensions: &[], is_text: false }
}

/// Information reported for a directory.
pub fn directory_info() -> (r: TypeInfo)
    ensures
        r == spec_directory_info(),
{
    TypeInfo { label: "directory", mime_type: "inode/directory", group: "inode", description: "A directory", extensions: &[], is_text: false }
}

/// Information reported for a symlink.
pub open spec fn spec_symlink_info() -> TypeInfo {
    TypeInfo { label: "symlink", mime_type: "inode/symlink", group: "inode", description: "Symbolic link", extensions: &[], is_text: false }
}

/// Information reported for a symlink.
pub fn symlink_info() -> (r: TypeInfo)
    ensures
        r == spec_symlink_info(),
{
    TypeInfo { label: "symlink", mime_type: "inode/symlink", group: "inode", description: "Symbolic link", extensions: &[], is_text: false }
}

} // verus!
