//! The `cd` builtin: which directory a `cd` command leads to.

use crate::text::{chars_of, string_of};
use vstd::prelude::*;
use vstd::string::StringExecFns;

verus! {

/// Why `cd` cannot say where to go.
#[derive(Clone, Copy, Debug, PartialEq, Eq, Structural)]
pub enum CdError {
    /// `cd -` without a previous directory.
    NoOldPwd,
    /// The home directory is asked for and there is none.
    NoHome,
}

impl CdError {
    /// What the user is told.
    pub fn message(&self) -> (s: &'static str)
        ensures
            s@ == match *self {
                CdError::NoOldPwd => "no OLDPWD"@,
                CdError::NoHome => "No Home Directory"@,
            },
    {
        match self {
            CdError::NoOldPwd => "no OLDPWD",
            CdError::NoHome => "No Home Directory",
        }
    }
}

/// What `cd` makes of its argument.
pub ghost enum CdTarget {
    /// This very path.
    Path(Seq<char>),
    /// The directory that `rel` names as seen from `base`.
    Joined { base: Seq<char>, rel: Seq<char> },
    /// Nowhere.
    Refused(CdError),
}

/// Where `cd` leads: without an argument to the home directory; with `-` to
/// the previous directory; with an argument that starts with `~` to the home
/// directory followed by the rest of the argument; with any other argument
/// to that path as seen from the working directory.
pub open spec fn cd_target(
    path: Option<Seq<char>>,
    old_pwd: Option<Seq<char>>,
    home: Option<Seq<char>>,
    working_dir: Seq<char>,
) -> CdTarget {
    match path {
        None => match home {
            Some(h) => CdTarget::Path(h),
            None => CdTarget::Refused(CdError::NoHome),
        },
        Some(p) => if p == seq!['-'] {
            match old_pwd {
                Some(o) => CdTarget::Path(o),
                None => CdTarget::Refused(CdError::NoOldPwd),
            }
        } else if p.len() > 0 && p[0] == '~' {
            match home {
                Some(h) => CdTarget::Path(h + p.subrange(1, p.len() as int)),
                None => CdTarget::Refused(CdError::NoHome),
            }
        } else {
            CdTarget::Joined { base: working_dir, rel: p }
        },
    }
}

/// `Path::join`: `rel` as seen from `base`. How two paths are joined is the
/// platform's affair, so nothing is said of the result.
#[verifier::external_body]
fn join_path(base: &str, rel: &str) -> String {
    std::path::Path::new(base).join(rel).to_string_lossy().into_owned()
}

/// The `cd` builtin.
#[derive(Default)]
pub struct CdBuiltin {}

impl CdBuiltin {
    /// The directory that `cd` goes to, given its argument, the previous
    /// directory, the home directory and the working directory, where each
    /// is known.
    pub fn target(
        &self,
        path: Option<&str>,
        old_pwd: Option<&str>,
        home: Option<&str>,
        working_dir: &str,
    ) -> (r: Result<String, CdError>)
        ensures
            match cd_target(
                match path {
                    Some(p) => Some(p@),
                    None => None,
                },
                match old_pwd {
                    Some(o) => Some(o@),
                    None => None,
                },
                match home {
                    Some(h) => Some(h@),
                    None => None,
                },
                working_dir@,
            ) {
                CdTarget::Path(p) => r is Ok && r.unwrap()@ == p,
                CdTarget::Joined { .. } => r is Ok,
                CdTarget::Refused(e) => r == Err::<String, CdError>(e),
            },
    {
        match path {
            None => match home {
                Some(h) => Ok(h.to_owned()),
                None => Err(CdError::NoHome),
            },
            Some(p) => {
                let chars = chars_of(p);
                if chars.len() == 1 && chars[0] == '-' {
                    assert(p@ =~= seq!['-']);
                    match old_pwd {
                        Some(o) => Ok(o.to_owned()),
                        None => Err(CdError::NoOldPwd),
                    }
                } else if chars.len() > 0 && chars[0] == '~' {
                    match home {
                        Some(h) => {
                            let mut target = h.to_owned();
                            let rest = string_of(&chars, 1, chars.len());
                            target.append(rest.as_str());
                            Ok(target)
                        },
                        None => Err(CdError::NoHome),
                    }
                } else {
                    Ok(join_path(working_dir, p))
                }
            },
        }
    }
}

} // verus!
