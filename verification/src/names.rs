//! Name matching for the target application: process names, executable
//! file names and installer display names. The target is known under a few
//! Latin-script spellings, matched case-insensitively, and one native-script
//! spelling, matched verbatim.

use vstd::prelude::*;
use vstd::string::*;

use crate::text::{contains_bytes, contains_seq, lower_bytes, lower_vec, str_eq};

verus! {

/// A byte string names the target when its ASCII lower-casing contains one
/// of the Latin-script spellings, or it contains the native-script spelling.
pub open spec fn is_target_name_bytes(s: Seq<u8>) -> bool {
    ||| contains_seq(lower_bytes(s), "bitbrowser".spec_bytes())
    ||| contains_seq(lower_bytes(s), "bit browser".spec_bytes())
    ||| contains_seq(s, "比特浏览器".spec_bytes())
}

/// Whether a process name belongs to the target application.
pub fn is_bitbrowser_process(name: &str) -> (r: bool)
    ensures
        r == is_target_name_bytes(name.spec_bytes()),
{
    let bytes = name.as_bytes();
    let lowered = lower_vec(bytes);
    contains_bytes(lowered.as_slice(), "bitbrowser".as_bytes()) || contains_bytes(
        lowered.as_slice(),
        "bit browser".as_bytes(),
    ) || contains_bytes(bytes, "比特浏览器".as_bytes())
}

/// The executable file names the target application is installed under,
/// in the order they are tried.
pub open spec fn candidate_exe_names() -> Seq<Seq<char>> {
    seq![
        "BitBrowser.exe"@,
        "比特浏览器.exe"@,
        "bitbrowser.exe"@,
        "BitBrowser_Client.exe"@,
        "BitBrowserClient.exe"@,
    ]
}

/// The candidate executable file names as strings.
pub fn exe_name_candidates() -> (r: Vec<String>)
    ensures
        r@.len() == candidate_exe_names().len(),
        forall|i: int| 0 <= i < r@.len() ==> r@[i]@ == candidate_exe_names()[i],
{
    let mut v: Vec<String> = Vec::new();
    v.push(String::from_str("BitBrowser.exe"));
    v.push(String::from_str("比特浏览器.exe"));
    v.push(String::from_str("bitbrowser.exe"));
    v.push(String::from_str("BitBrowser_Client.exe"));
    v.push(String::from_str("BitBrowserClient.exe"));
    v
}

/// Whether `file` is one of the candidate executable names.
pub open spec fn is_candidate_exe_name(file: Seq<char>) -> bool {
    exists|i: int| 0 <= i < candidate_exe_names().len() && candidate_exe_names()[i] == file
}

/// Whether a file name is one of the executable names the target is known by.
pub fn is_candidate_exe(file: &str) -> (r: bool)
    ensures
        r == is_candidate_exe_name(file@),
{
    let names = exe_name_candidates();
    let mut i: usize = 0;
    while i < names.len()
        invariant
            names@.len() == candidate_exe_names().len(),
            forall|k: int| 0 <= k < names@.len() ==> names@[k]@ == candidate_exe_names()[k],
            i <= names@.len(),
            forall|k: int| 0 <= k < i ==> candidate_exe_names()[k] != file@,
        decreases names@.len() - i,
    {
        if str_eq(names[i].as_str(), file) {
            return true;
        }
        i = i + 1;
    }
    false
}

} // verus!
