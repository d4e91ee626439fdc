//! The options of one run, and the prompt notes that they add.
use vstd::prelude::*;
use vstd::string::StringExecFns;

verus! {

/// Options of one run.
pub struct Args {
    /// Show the prompt, the endpoint and the reasoning text.
    pub verbose: bool,
    /// Name of the dotenv profile to load.
    pub dotenv: Option<String>,
    /// A commit type that the message must use.
    pub commit_type: Option<String>,
    /// A commit scope that the message must use.
    pub commit_scope: Option<String>,
    /// Further instructions for the model.
    pub prompt: Option<String>,
}

pub open spec fn commit_type_text(t: Seq<char>) -> Seq<char> {
    "According to my demand, the commit type must be '"@ + t + "'.\n\n\n"@
}

pub open spec fn extra_prompt_text(p: Seq<char>) -> Seq<char> {
    "Here are some additional message for you to writer a better git commit message:\n\n"@ + p
        + "\n\n\n"@
}

impl Args {
    /// The prompt note that fixes the commit type; empty without one.
    pub fn commit_type_note(&self) -> (r: String)
        ensures
            match self.commit_type {
                Some(t) => r@ == commit_type_text(t@),
                None => r@.len() == 0,
            },
    {
        match &self.commit_type {
            Some(t) => {
                let mut s = "According to my demand, the commit type must be '".to_owned();
                s.append(t.as_str());
                s.append("'.\n\n\n");
                s
            },
            None => String::new(),
        }
    }

    /// The prompt note that carries the user's further instructions; empty
    /// without them.
    pub fn prompt_note(&self) -> (r: String)
        ensures
            match self.prompt {
                Some(p) => r@ == extra_prompt_text(p@),
                None => r@.len() == 0,
            },
    {
        match &self.prompt {
            Some(p) => {
                let mut s =
                    "Here are some additional message for you to writer a better git commit message:\n\n".to_owned();
                s.append(p.as_str());
                s.append("\n\n\n");
                s
            },
            None => String::new(),
        }
    }
}

} // verus!
