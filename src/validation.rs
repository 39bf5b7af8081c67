use vstd::prelude::*;

use crate::error::IconError;

verus! {

/// The code point of the ASCII lowercase of one character; any character
/// other than `A`..=`Z` keeps its own code point.
pub open spec fn ascii_lower(c: char) -> u32 {
    if 'A' <= c && c <= 'Z' {
        ((c as u32) + 32) as u32
    } else {
        c as u32
    }
}

/// Two strings are equal when ASCII letters are compared without case.
pub open spec fn eq_ignore_ascii_case(a: Seq<char>, b: Seq<char>) -> bool {
    &&& a.len() == b.len()
    &&& forall|i: int| 0 <= i < a.len() ==> ascii_lower(#[trigger] a[i]) == ascii_lower(b[i])
}

/// The extension an executable must carry.
pub open spec fn exe_extension() -> Seq<char> {
    seq!['e', 'x', 'e']
}

/// A path is accepted when it exists and its extension is "exe" in any case.
pub open spec fn accepts_path(exists: bool, extension: Option<&str>) -> bool {
    match extension {
        Some(e) => exists && eq_ignore_ascii_case(e@, exe_extension()),
        None => false,
    }
}

fn lower_code(c: char) -> (r: u32)
    ensures
        r == ascii_lower(c),
{
    if 'A' <= c && c <= 'Z' {
        (c as u32) + 32
    } else {
        c as u32
    }
}

/// Whether `ext` equals "exe" with ASCII letters compared without case.
pub fn is_exe_extension(ext: &str) -> (r: bool)
    ensures
        r == eq_ignore_ascii_case(ext@, exe_extension()),
{
    let wanted: [char; 3] = ['e', 'x', 'e'];
    let n: usize = ext.unicode_len();
    if n != 3 {
        return false;
    }
    let mut i: usize = 0;
    while i < 3
        invariant
            n == ext@.len(),
            n == 3,
            0 <= i <= 3,
            wanted@ == exe_extension(),
            forall|j: int| 0 <= j < i ==> ascii_lower(#[trigger] ext@[j]) == ascii_lower(
                exe_extension()[j],
            ),
        decreases 3 - i,
    {
        let c = ext.get_char(i);
        if lower_code(c) != lower_code(wanted[i]) {
            return false;
        }
        i = i + 1;
    }
    true
}

/// Checks the executable path before any resource is acquired: it must
/// exist and carry the extension "exe" in any case.
pub fn validate_path(exists: bool, extension: Option<&str>) -> (r: Result<(), IconError>)
    ensures
        r is Ok <==> accepts_path(exists, extension),
        r is Err ==> r == Err::<(), IconError>(IconError::InvalidInput),
{
    if !exists {
        return Err(IconError::InvalidInput);
    }
    match extension {
        Some(e) => {
            if is_exe_extension(e) {
                Ok(())
            } else {
                Err(IconError::InvalidInput)
            }
        },
        None => Err(IconError::InvalidInput),
    }
}

} // verus!
