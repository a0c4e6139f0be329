//! Deciding where a found message landed: inbox, spam, a tab, or elsewhere.
use vstd::prelude::*;

use crate::models::MatchedMessage;
use crate::text::{contains_seq, lowercase, owned, same_text, text_contains, to_lowercase};

verus! {

/// Where a test message landed.
#[derive(Debug, Clone, Copy, PartialEq, Eq, Structural)]
pub enum Placement {
    Inbox,
    Spam,
    Junk,
    Promotions,
    Social,
    Updates,
    Missing,
    Other,
}

/// The name under which a placement is shown and stored.
pub open spec fn placement_name(p: Placement) -> Seq<char> {
    match p {
        Placement::Inbox => "inbox"@,
        Placement::Spam => "spam"@,
        Placement::Junk => "junk"@,
        Placement::Promotions => "promotions"@,
        Placement::Social => "social"@,
        Placement::Updates => "updates"@,
        Placement::Missing => "missing"@,
        Placement::Other => "other"@,
    }
}

impl Placement {
    /// The name under which this placement is shown and stored.
    pub fn to_string(&self) -> (s: String)
        ensures
            s@ == placement_name(*self),
    {
        match self {
            Placement::Inbox => owned("inbox"),
            Placement::Spam => owned("spam"),
            Placement::Junk => owned("junk"),
            Placement::Promotions => owned("promotions"),
            Placement::Social => owned("social"),
            Placement::Updates => owned("updates"),
            Placement::Missing => owned("missing"),
            Placement::Other => owned("other"),
        }
    }
}

/// Gmail's placement of a message with the given labels.
pub open spec fn gmail_placement(labels: Seq<Seq<char>>) -> Placement {
    let inbox = labels.contains("INBOX"@);
    if labels.contains("SPAM"@) {
        Placement::Spam
    } else if labels.contains("TRASH"@) {
        Placement::Other
    } else if labels.contains("CATEGORY_PROMOTIONS"@) && inbox {
        Placement::Promotions
    } else if labels.contains("CATEGORY_SOCIAL"@) && inbox {
        Placement::Social
    } else if labels.contains("CATEGORY_UPDATES"@) && inbox {
        Placement::Updates
    } else if inbox {
        Placement::Inbox
    } else {
        Placement::Other
    }
}

/// Microsoft's placement of a message in the given folder.
pub open spec fn microsoft_placement(folder: Seq<char>) -> Placement {
    let f = lowercase(folder);
    if f == "inbox"@ {
        Placement::Inbox
    } else if f == "junkemail"@ || f == "junk email"@ || f == "spam"@ {
        Placement::Junk
    } else {
        Placement::Other
    }
}

/// A plain IMAP server's placement of a message in the given folder.
pub open spec fn imap_placement(folder: Seq<char>) -> Placement {
    let f = lowercase(folder);
    if f == "inbox"@ || f == "inbo"@ {
        Placement::Inbox
    } else if contains_seq(f, "spam"@) || contains_seq(f, "junk"@) || contains_seq(
        f,
        "[gmail]/spam"@,
    ) {
        Placement::Spam
    } else {
        Placement::Other
    }
}

/// The placement that a provider's mailbox gives a message.
pub open spec fn placement_for(provider: Seq<char>, msg: MatchedMessage) -> Placement {
    if provider == "gmail"@ {
        gmail_placement(msg.label_texts())
    } else if provider == "microsoft"@ {
        microsoft_placement(msg.folder@)
    } else {
        imap_placement(msg.folder@)
    }
}

/// Decides placements from mailbox folders and labels.
pub struct PlacementClassifier;

impl PlacementClassifier {
    /// Whether `label` is one of `labels`.
    fn has_label(labels: &Vec<String>, label: &str) -> (r: bool)
        ensures
            r == labels@.map_values(|l: String| l@).contains(label@),
    {
        let ghost texts = labels@.map_values(|l: String| l@);
        let mut i: usize = 0;
        while i < labels.len()
            invariant
                i <= labels@.len(),
                texts == labels@.map_values(|l: String| l@),
                forall|j: int| 0 <= j < i ==> texts[j] != label@,
            decreases labels@.len() - i,
        {
            if same_text(labels[i].as_str(), label) {
                assert(texts[i as int] == label@);
                return true;
            }
            i = i + 1;
        }
        false
    }

    /// The placement of a message in a Gmail mailbox, by its labels.
    pub fn classify_gmail(msg: &MatchedMessage) -> (p: Placement)
        ensures
            p == gmail_placement(msg.label_texts()),
    {
        let labels = &msg.labels;
        if Self::has_label(labels, "SPAM") {
            return Placement::Spam;
        }
        if Self::has_label(labels, "TRASH") {
            return Placement::Other;
        }
        let in_inbox = Self::has_label(labels, "INBOX");
        if Self::has_label(labels, "CATEGORY_PROMOTIONS") {
            if in_inbox {
                return Placement::Promotions;
            }
        }
        if Self::has_label(labels, "CATEGORY_SOCIAL") {
            if in_inbox {
                return Placement::Social;
            }
        }
        if Self::has_label(labels, "CATEGORY_UPDATES") {
            if in_inbox {
                return Placement::Updates;
            }
        }
        if in_inbox {
            return Placement::Inbox;
        }
        Placement::Other
    }

    /// The placement of a message in a Microsoft mailbox, by its folder.
    pub fn classify_microsoft(msg: &MatchedMessage) -> (p: Placement)
        ensures
            p == microsoft_placement(msg.folder@),
    {
        let folder = to_lowercase(msg.folder.as_str());
        let f = folder.as_str();
        if same_text(f, "inbox") {
            Placement::Inbox
        } else if same_text(f, "junkemail") || same_text(f, "junk email") || same_text(f, "spam") {
            Placement::Junk
        } else {
            Placement::Other
        }
    }

    /// The placement of a message on a plain IMAP server, by its folder.
    pub fn classify_imap(msg: &MatchedMessage) -> (p: Placement)
        ensures
            p == imap_placement(msg.folder@),
    {
        let folder = to_lowercase(msg.folder.as_str());
        let f = folder.as_str();
        if same_text(f, "inbox") || same_text(f, "inbo") {
            return Placement::Inbox;
        }
        if text_contains(f, "spam") || text_contains(f, "junk") || text_contains(f, "[gmail]/spam") {
            return Placement::Spam;
        }
        Placement::Other
    }

    /// The placement of a message, by the rules of its provider: `gmail`
    /// and `microsoft` have their own; any other provider is plain IMAP.
    pub fn classify(provider: &str, msg: &MatchedMessage) -> (p: Placement)
        ensures
            p == placement_for(provider@, *msg),
    {
        if same_text(provider, "gmail") {
            Self::classify_gmail(msg)
        } else if same_text(provider, "microsoft") {
            Self::classify_microsoft(msg)
        } else {
            Self::classify_imap(msg)
        }
    }
}

} // verus!
