//! The icon shown before a file name, chosen by the file's lower-cased
//! extension.

use vstd::prelude::*;

verus! {

/// Character-wise equality of two string slices.
pub fn str_eq(a: &str, b: &str) -> (r: bool)
    ensures
        r == (a@ == b@),
{
    let la = a.unicode_len();
    let lb = b.unicode_len();
    if la != lb {
        return false;
    }
    let mut i: usize = 0;
    while i < la
        invariant
            i <= la,
            la == a@.len(),
            la == b@.len(),
            forall|j: int| 0 <= j < i ==> a@[j] == b@[j],
        decreases la - i,
    {
        if a.get_char(i) != b.get_char(i) {
            return false;
        }
        i += 1;
    }
    proof {
        assert(a@ =~= b@);
    }
    true
}

/// The view of an optional string slice.
pub open spec fn opt_str_view(o: Option<&str>) -> Option<Seq<char>> {
    match o {
        Some(s) => Some(s@),
        None => None,
    }
}

/// The icon for a file extension that is known to the table; the plain
/// document icon for every other extension and for a missing one.
pub open spec fn spec_icon(ext: Option<Seq<char>>) -> Seq<char> {
    match ext {
        None => "📄"@,
        Some(e) => spec_icon_for(e),
    }
}

/// The extension-to-icon table itself.
pub open spec fn spec_icon_for(e: Seq<char>) -> Seq<char> {
    if e == "rs"@ {
        "🦀"@
    } else if e == "py"@ {
        "🐍"@
    } else if e == "js"@ {
        "📜"@
    } else if e == "ts"@ {
        "📘"@
    } else if e == "go"@ {
        "🐹"@
    } else if e == "java"@ {
        "☕"@
    } else if e == "c"@ {
        "🇨"@
    } else if e == "cpp"@ || e == "cc"@ || e == "cxx"@ {
        "🇨++"@
    } else if e == "cs"@ {
        "🩸"@
    } else if e == "php"@ {
        "🐘"@
    } else if e == "rb"@ {
        "💎"@
    } else if e == "swift"@ {
        "🍏"@
    } else if e == "kt"@ || e == "kts"@ {
        "🤖"@
    } else if e == "dart"@ {
        "🎯"@
    } else if e == "scala"@ {
        "🧪"@
    } else if e == "pl"@ {
        "🐪"@
    } else if e == "r"@ {
        "📊"@
    } else if e == "hs"@ {
        "🧮"@
    } else if e == "lua"@ {
        "🌘"@
    } else if e == "sh"@ || e == "bash"@ {
        "⚡"@
    } else if e == "ps1"@ {
        "🐚"@
    } else if e == "vbs"@ {
        "🪟"@
    } else if e == "m"@ {
        "🪟"@
    } else if e == "jl"@ {
        "🟦"@
    } else if e == "txt"@ {
        "📄"@
    } else if e == "md"@ {
        "📝"@
    } else if e == "log"@ {
        "📋"@
    } else if e == "csv"@ {
        "🧮"@
    } else if e == "xml"@ {
        "📄"@
    } else if e == "toml"@ {
        "🔧"@
    } else if e == "json"@ {
        "📦"@
    } else if e == "yaml"@ || e == "yml"@ {
        "📄"@
    } else if e == "html"@ || e == "htm"@ {
        "🌐"@
    } else if e == "css"@ {
        "🎨"@
    } else if e == "scss"@ || e == "sass"@ {
        "🎨"@
    } else if e == "jsx"@ {
        "⚛️"@
    } else if e == "tsx"@ {
        "📘"@
    } else if e == "png"@ || e == "jpg"@ || e == "jpeg"@ || e == "gif"@ {
        "🖼️"@
    } else if e == "svg"@ {
        "🖼️"@
    } else if e == "webp"@ {
        "🖼️"@
    } else if e == "zip"@ || e == "tar"@ || e == "gz"@ || e == "7z"@ || e == "xz"@ || e == "bz2"@
        || e == "zst"@ {
        "📦"@
    } else if e == "deb"@ {
        "🐧"@
    } else if e == "apk"@ {
        "📱"@
    } else if e == "rpm"@ {
        "📦"@
    } else if e == "jar"@ {
        "☕"@
    } else if e == "iso"@ {
        "💿"@
    } else if e == "dmg"@ {
        "🍎"@
    } else if e == "msi"@ {
        "🪟"@
    } else if e == "sql"@ {
        "🗄️"@
    } else if e == "db"@ {
        "💾"@
    } else if e == "mp3"@ || e == "wav"@ || e == "ogg"@ || e == "flac"@ {
        "🔊"@
    } else if e == "mp4"@ || e == "avi"@ || e == "mkv"@ || e == "mov"@ {
        "🎬"@
    } else if e == "doc"@ || e == "docx"@ {
        "📘"@
    } else if e == "xls"@ || e == "xlsx"@ {
        "📊"@
    } else if e == "ppt"@ || e == "pptx"@ {
        "🖉"@
    } else if e == "pdf"@ {
        "📄"@
    } else if e == "exe"@ {
        "⚙️"@
    } else if e == "dll"@ {
        "⚙️"@
    } else if e == "so"@ {
        "⚙️"@
    } else if e == "appimage"@ {
        "🚀"@
    } else if e == "lock"@ {
        "🔒"@
    } else if e == "ttf"@ || e == "otf"@ {
        "🅰️"@
    } else if e == "bat"@ {
        "🪟"@
    } else if e == "cmd"@ {
        "🪟"@
    } else {
        "📄"@
    }
}

/// The icon shown before a file name with the given lower-cased extension.
pub fn get_icon_from_extension(ext: Option<&str>) -> (r: &'static str)
    ensures
        r@ == spec_icon(opt_str_view(ext)),
{
    match ext {
        None => "📄",
        Some(e) => {
            if str_eq(e, "rs") {
                "🦀"
            } else if str_eq(e, "py") {
                "🐍"
            } else if str_eq(e, "js") {
                "📜"
            } else if str_eq(e, "ts") {
                "📘"
            } else if str_eq(e, "go") {
                "🐹"
            } else if str_eq(e, "java") {
                "☕"
            } else if str_eq(e, "c") {
                "🇨"
            } else if str_eq(e, "cpp") || str_eq(e, "cc") || str_eq(e, "cxx") {
                "🇨++"
            } else if str_eq(e, "cs") {
                "🩸"
            } else if str_eq(e, "php") {
                "🐘"
            } else if str_eq(e, "rb") {
                "💎"
            } else if str_eq(e, "swift") {
                "🍏"
            } else if str_eq(e, "kt") || str_eq(e, "kts") {
                "🤖"
            } else if str_eq(e, "dart") {
                "🎯"
            } else if str_eq(e, "scala") {
                "🧪"
            } else if str_eq(e, "pl") {
                "🐪"
            } else if str_eq(e, "r") {
                "📊"
            } else if str_eq(e, "hs") {
                "🧮"
            } else if str_eq(e, "lua") {
                "🌘"
            } else if str_eq(e, "sh") || str_eq(e, "bash") {
                "⚡"
            } else if str_eq(e, "ps1") {
                "🐚"
            } else if str_eq(e, "vbs") {
                "🪟"
            } else if str_eq(e, "m") {
                "🪟"
            } else if str_eq(e, "jl") {
                "🟦"
            } else if str_eq(e, "txt") {
                "📄"
            } else if str_eq(e, "md") {
                "📝"
            } else if str_eq(e, "log") {
                "📋"
            } else if str_eq(e, "csv") {
                "🧮"
            } else if str_eq(e, "xml") {
                "📄"
            } else if str_eq(e, "toml") {
                "🔧"
            } else if str_eq(e, "json") {
                "📦"
            } else if str_eq(e, "yaml") || str_eq(e, "yml") {
                "📄"
            } else if str_eq(e, "html") || str_eq(e, "htm") {
                "🌐"
            } else if str_eq(e, "css") {
                "🎨"
            } else if str_eq(e, "scss") || str_eq(e, "sass") {
                "🎨"
            } else if str_eq(e, "jsx") {
                "⚛️"
            } else if str_eq(e, "tsx") {
                "📘"
            } else if str_eq(e, "png") || str_eq(e, "jpg") || str_eq(e, "jpeg") || str_eq(
                e,
                "gif",
            ) {
                "🖼️"
            } else if str_eq(e, "svg") {
                "🖼️"
            } else if str_eq(e, "webp") {
                "🖼️"
            } else if str_eq(e, "zip") || str_eq(e, "tar") || str_eq(e, "gz") || str_eq(e, "7z")
                || str_eq(e, "xz") || str_eq(e, "bz2") || str_eq(e, "zst") {
                "📦"
            } else if str_eq(e, "deb") {
                "🐧"
            } else if str_eq(e, "apk") {
                "📱"
            } else if str_eq(e, "rpm") {
                "📦"
            } else if str_eq(e, "jar") {
                "☕"
            } else if str_eq(e, "iso") {
                "💿"
            } else if str_eq(e, "dmg") {
                "🍎"
            } else if str_eq(e, "msi") {
                "🪟"
            } else if str_eq(e, "sql") {
                "🗄️"
            } else if str_eq(e, "db") {
                "💾"
            } else if str_eq(e, "mp3") || str_eq(e, "wav") || str_eq(e, "ogg") || str_eq(
                e,
                "flac",
            ) {
                "🔊"
            } else if str_eq(e, "mp4") || str_eq(e, "avi") || str_eq(e, "mkv") || str_eq(
                e,
                "mov",
            ) {
                "🎬"
            } else if str_eq(e, "doc") || str_eq(e, "docx") {
                "📘"
            } else if str_eq(e, "xls") || str_eq(e, "xlsx") {
                "📊"
            } else if str_eq(e, "ppt") || str_eq(e, "pptx") {
                "🖉"
            } else if str_eq(e, "pdf") {
                "📄"
            } else if str_eq(e, "exe") {
                "⚙️"
            } else if str_eq(e, "dll") {
                "⚙️"
            } else if str_eq(e, "so") {
                "⚙️"
            } else if str_eq(e, "appimage") {
                "🚀"
            } else if str_eq(e, "lock") {
                "🔒"
            } else if str_eq(e, "ttf") || str_eq(e, "otf") {
                "🅰️"
            } else if str_eq(e, "bat") {
                "🪟"
            } else if str_eq(e, "cmd") {
                "🪟"
            } else {
                "📄"
            }
        },
    }
}

} // verus!
