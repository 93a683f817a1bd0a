use vstd::prelude::*;

verus! {

#[verifier::external_type_specification]
#[verifier::external_body]
pub struct ExRegex(regex::Regex);

/// Whether a compiled regular expression finds a match anywhere in a text.
pub uninterp spec fn regex_finds(re: regex::Regex, text: Seq<char>) -> bool;

/// Relies on regex's `Regex::is_match`: whether the expression matches somewhere
/// in the text, which depends on the expression and the text alone.
#[verifier::external_body]
fn regex_is_match(re: &regex::Regex, text: &str) -> (r: bool)
    ensures
        r == regex_finds(*re, text@),
{
    re.is_match(text)
}

/// Daemon-wide settings, read once at startup.
pub struct GlobalSettings {
    /// Remote stems used when a repository has no usable `.lohr` file.
    pub default_remotes: Vec<String>,
    /// Remote stems pushed to for every repository.
    pub additional_remotes: Vec<String>,
    /// A repository whose full name matches any of these is never mirrored.
    pub blacklist: Vec<regex::Regex>,
}

/// Whether any pattern of the blacklist matches the name.
pub open spec fn blacklisted(blacklist: Seq<regex::Regex>, full_name: Seq<char>) -> bool {
    exists|i: int| 0 <= i < blacklist.len() && regex_finds(#[trigger] blacklist[i], full_name)
}

impl GlobalSettings {
    pub fn new(
        default_remotes: Vec<String>,
        additional_remotes: Vec<String>,
        blacklist: Vec<regex::Regex>,
    ) -> (r: GlobalSettings)
        ensures
            r.default_remotes == default_remotes,
            r.additional_remotes == additional_remotes,
            r.blacklist == blacklist,
    {
        GlobalSettings { default_remotes, additional_remotes, blacklist }
    }

    /// Whether the repository of that full name is left alone.
    pub fn is_blacklisted(&self, full_name: &str) -> (r: bool)
        ensures
            r == blacklisted(self.blacklist@, full_name@),
    {
        let mut i: usize = 0;
        while i < self.blacklist.len()
            invariant
                i <= self.blacklist.len(),
                forall|j: int| 0 <= j < i ==> !regex_finds(#[trigger] self.blacklist@[j], full_name@),
            decreases self.blacklist.len() - i,
        {
            if regex_is_match(&self.blacklist[i], full_name) {
                return true;
            }
            i = i + 1;
        }
        false
    }
}

impl Default for GlobalSettings {
    /// No remotes and an empty blacklist, as when no configuration is found.
    fn default() -> (r: GlobalSettings)
        ensures
            r.default_remotes@.len() == 0,
            r.additional_remotes@.len() == 0,
            r.blacklist@.len() == 0,
    {
        GlobalSettings {
            default_remotes: Vec::new(),
            additional_remotes: Vec::new(),
            blacklist: Vec::new(),
        }
    }
}

} // verus!
