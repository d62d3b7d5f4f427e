//! The serving application's operating environment.
//!
//! The environment is selected by name, compared without regard to ASCII
//! case; anything but the two known names is rejected with the offending
//! value.

use vstd::prelude::*;

verus! {

/// The code of an ASCII capital letter lowered by 32; any other character's
/// code unchanged.
pub open spec fn lower_char_code(c: char) -> int {
    if 65 <= c as int && c as int <= 90 {
        c as int + 32
    } else {
        c as int
    }
}

/// Whether two texts are equal up to ASCII case.
pub open spec fn matches_ignore_ascii_case(s: Seq<char>, t: Seq<char>) -> bool {
    s.len() == t.len() && forall|i: int|
        0 <= i < s.len() ==> lower_char_code(s[i]) == lower_char_code(t[i])
}

/// Compares two strings for equality up to ASCII case.
fn str_eq_ignore_ascii_case(s: &str, t: &str) -> (r: bool)
    ensures
        r == matches_ignore_ascii_case(s@, t@),
{
    let n = s.unicode_len();
    let m = t.unicode_len();
    if n != m {
        return false;
    }
    let mut i: usize = 0;
    while i < n
        invariant
            n == s@.len(),
            m == t@.len(),
            n == m,
            i <= n,
            forall|j: int| 0 <= j < i ==> lower_char_code(s@[j]) == lower_char_code(t@[j]),
        decreases n - i,
    {
        let a = s.get_char(i) as u32;
        let b = t.get_char(i) as u32;
        let la = if 65 <= a && a <= 90 {
            a + 32
        } else {
            a
        };
        let lb = if 65 <= b && b <= 90 {
            b + 32
        } else {
            b
        };
        if la != lb {
            return false;
        }
        i = i + 1;
    }
    true
}

/// Operating environment of the serving application.
#[derive(Debug, Clone, Copy, PartialEq, Eq, Structural)]
pub enum AppEnvironment {
    /// Local development environment.
    Local,
    /// Production environment.
    Production,
}

impl AppEnvironment {
    /// The environment's canonical lower-case name.
    pub fn as_str(&self) -> (r: &'static str)
        ensures
            self is Local ==> r@ == "local"@,
            self is Production ==> r@ == "production"@,
    {
        match self {
            AppEnvironment::Local => "local",
            AppEnvironment::Production => "production",
        }
    }

    /// Selects the environment named by `value`, without regard to ASCII
    /// case; any other name is rejected, handing the value back for the
    /// caller's diagnostic.
    pub fn try_from_text(value: &str) -> (r: Result<AppEnvironment, String>)
        ensures
            matches_ignore_ascii_case(value@, "local"@) ==> r == Ok::<AppEnvironment, String>(
                AppEnvironment::Local,
            ),
            matches_ignore_ascii_case(value@, "production"@) ==> r == Ok::<AppEnvironment, String>(
                AppEnvironment::Production,
            ),
            (!matches_ignore_ascii_case(value@, "local"@) && !matches_ignore_ascii_case(
                value@,
                "production"@,
            )) ==> (r matches Err(msg) && msg@ == value@),
    {
        proof {
            reveal_strlit("local");
            reveal_strlit("production");
        }
        if str_eq_ignore_ascii_case(value, "local") {
            Ok(AppEnvironment::Local)
        } else if str_eq_ignore_ascii_case(value, "production") {
            Ok(AppEnvironment::Production)
        } else {
            Err(value.to_owned())
        }
    }
}

} // verus!
