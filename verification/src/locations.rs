//! The fixed locations the filesystem strategies look at: user-profile
//! directories, well-known install directories on each drive, and the
//! drive roots themselves. Install directories exist under both the
//! Latin-script and the native-script product name.

use vstd::prelude::*;
use vstd::string::*;

use crate::text::join_path;

verus! {

/// The user-profile-relative directories checked first, in order.
pub open spec fn user_dir_names() -> Seq<Seq<char>> {
    seq![
        "AppData\\Local\\BitBrowser"@,
        "AppData\\Roaming\\BitBrowser"@,
        "AppData\\Local\\比特浏览器"@,
        "AppData\\Roaming\\比特浏览器"@,
        "Desktop\\BitBrowser"@,
        "Desktop\\比特浏览器"@,
        "Downloads\\BitBrowser"@,
        "Downloads\\比特浏览器"@,
    ]
}

/// The user-profile-relative candidate directories, joined under `home`.
pub fn user_dir_candidates(home: &str) -> (r: Vec<String>)
    ensures
        r@.len() == user_dir_names().len(),
        forall|i: int| 0 <= i < r@.len() ==> r@[i]@ == home@ + "\\"@ + user_dir_names()[i],
{
    let mut v: Vec<String> = Vec::new();
    v.push(join_path(home, "AppData\\Local\\BitBrowser"));
    v.push(join_path(home, "AppData\\Roaming\\BitBrowser"));
    v.push(join_path(home, "AppData\\Local\\比特浏览器"));
    v.push(join_path(home, "AppData\\Roaming\\比特浏览器"));
    v.push(join_path(home, "Desktop\\BitBrowser"));
    v.push(join_path(home, "Desktop\\比特浏览器"));
    v.push(join_path(home, "Downloads\\BitBrowser"));
    v.push(join_path(home, "Downloads\\比特浏览器"));
    v
}

/// The install-directory names checked on every drive, in order.
pub open spec fn common_dir_names() -> Seq<Seq<char>> {
    seq![
        "Program Files\\BitBrowser"@,
        "Program Files (x86)\\BitBrowser"@,
        "Program Files\\比特浏览器"@,
        "Program Files (x86)\\比特浏览器"@,
        "BitBrowser"@,
        "比特浏览器"@,
        "Software\\BitBrowser"@,
        "Software\\比特浏览器"@,
        "Apps\\BitBrowser"@,
        "Apps\\比特浏览器"@,
        "Tools\\BitBrowser"@,
        "Tools\\比特浏览器"@,
    ]
}

/// The candidate install directories under one drive root. The drive
/// string already ends in its separator, so the names are appended as
/// they are.
pub fn common_dir_candidates(drive: &str) -> (r: Vec<String>)
    ensures
        r@.len() == common_dir_names().len(),
        forall|i: int| 0 <= i < r@.len() ==> r@[i]@ == drive@ + common_dir_names()[i],
{
    let mut v: Vec<String> = Vec::new();
    v.push(String::from_str(drive).concat("Program Files\\BitBrowser"));
    v.push(String::from_str(drive).concat("Program Files (x86)\\BitBrowser"));
    v.push(String::from_str(drive).concat("Program Files\\比特浏览器"));
    v.push(String::from_str(drive).concat("Program Files (x86)\\比特浏览器"));
    v.push(String::from_str(drive).concat("BitBrowser"));
    v.push(String::from_str(drive).concat("比特浏览器"));
    v.push(String::from_str(drive).concat("Software\\BitBrowser"));
    v.push(String::from_str(drive).concat("Software\\比特浏览器"));
    v.push(String::from_str(drive).concat("Apps\\BitBrowser"));
    v.push(String::from_str(drive).concat("Apps\\比特浏览器"));
    v.push(String::from_str(drive).concat("Tools\\BitBrowser"));
    v.push(String::from_str(drive).concat("Tools\\比特浏览器"));
    v
}

/// The candidate drive roots, `A:\` through `Z:\`.
pub open spec fn drive_names() -> Seq<Seq<char>> {
    seq![
        "A:\\"@, "B:\\"@, "C:\\"@, "D:\\"@, "E:\\"@, "F:\\"@, "G:\\"@, "H:\\"@, "I:\\"@,
        "J:\\"@, "K:\\"@, "L:\\"@, "M:\\"@, "N:\\"@, "O:\\"@, "P:\\"@, "Q:\\"@, "R:\\"@,
        "S:\\"@, "T:\\"@, "U:\\"@, "V:\\"@, "W:\\"@, "X:\\"@, "Y:\\"@, "Z:\\"@,
    ]
}

/// Every possible drive root; the driver keeps the ones that exist.
pub fn drive_candidates() -> (r: Vec<String>)
    ensures
        r@.len() == drive_names().len(),
        forall|i: int| 0 <= i < r@.len() ==> r@[i]@ == drive_names()[i],
{
    let mut v: Vec<String> = Vec::new();
    v.push(String::from_str("A:\\"));
    v.push(String::from_str("B:\\"));
    v.push(String::from_str("C:\\"));
    v.push(String::from_str("D:\\"));
    v.push(String::from_str("E:\\"));
    v.push(String::from_str("F:\\"));
    v.push(String::from_str("G:\\"));
    v.push(String::from_str("H:\\"));
    v.push(String::from_str("I:\\"));
    v.push(String::from_str("J:\\"));
    v.push(String::from_str("K:\\"));
    v.push(String::from_str("L:\\"));
    v.push(String::from_str("M:\\"));
    v.push(String::from_str("N:\\"));
    v.push(String::from_str("O:\\"));
    v.push(String::from_str("P:\\"));
    v.push(String::from_str("Q:\\"));
    v.push(String::from_str("R:\\"));
    v.push(String::from_str("S:\\"));
    v.push(String::from_str("T:\\"));
    v.push(String::from_str("U:\\"));
    v.push(String::from_str("V:\\"));
    v.push(String::from_str("W:\\"));
    v.push(String::from_str("X:\\"));
    v.push(String::from_str("Y:\\"));
    v.push(String::from_str("Z:\\"));
    v
}

/// Whether a file name is a shortcut file matching the search keyword:
/// its name, lower-cased, must contain the keyword and end in the
/// shortcut extension.
pub open spec fn spec_is_shortcut_match(name: Seq<u8>, keyword: Seq<u8>) -> bool {
    crate::text::contains_seq(crate::text::lower_bytes(name), ".lnk".spec_bytes())
        && crate::text::contains_seq(crate::text::lower_bytes(name), keyword)
}

/// Whether a shortcut-menu file name matches the keyword.
pub fn is_shortcut_match(name: &str, keyword: &str) -> (r: bool)
    ensures
        r == spec_is_shortcut_match(name.spec_bytes(), keyword.spec_bytes()),
{
    let lowered = crate::text::lower_vec(name.as_bytes());
    crate::text::contains_bytes(lowered.as_slice(), ".lnk".as_bytes())
        && crate::text::contains_bytes(lowered.as_slice(), keyword.as_bytes())
}

} // verus!
