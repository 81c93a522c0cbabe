//! The decisions of the interactive configuration wizard.
//!
//! The wizard asks its questions elsewhere. Here is what it makes of the
//! answers: which option an answer stands for, what happens when the user
//! gives no answer, and how the result is summed up.

use crate::text::{join, joined, same_text};
use vstd::prelude::*;
use vstd::string::*;

verus! {

/// The index of the first element of `list` that equals `item`.
pub open spec fn first_index_of(list: Seq<Seq<char>>, item: Seq<char>) -> Option<int>
    decreases list.len(),
{
    if list.len() == 0 {
        None
    } else {
        match first_index_of(list.drop_last(), item) {
            Some(i) => Some(i),
            None => if list.last() == item {
                Some(list.len() - 1)
            } else {
                None
            },
        }
    }
}

/// `first_index_of` finds an occurrence before which there is none, and
/// finds nothing only where there is nothing to find.
pub proof fn lemma_first_index_of(list: Seq<Seq<char>>, item: Seq<char>)
    ensures
        match first_index_of(list, item) {
            Some(i) => 0 <= i < list.len() && list[i] == item && forall|k: int|
                0 <= k < i ==> list[k] != item,
            None => forall|k: int| 0 <= k < list.len() ==> list[k] != item,
        },
    decreases list.len(),
{
    if list.len() > 0 {
        lemma_first_index_of(list.drop_last(), item);
        match first_index_of(list.drop_last(), item) {
            Some(i) => {
                assert(list.drop_last()[i] == list[i]);
                assert forall|k: int| 0 <= k < i implies list[k] != item by {
                    assert(list.drop_last()[k] == list[k]);
                }
            },
            None => {
                assert forall|k: int| 0 <= k < list.len() - 1 implies list[k] != item by {
                    assert(list.drop_last()[k] == list[k]);
                }
            },
        }
    }
}

/// Finds the first element of `list` that equals `item`.
pub fn position(list: &Vec<String>, item: &str) -> (found: Option<usize>)
    ensures
        match found {
            Some(i) => first_index_of(list.deep_view(), item@) == Some(i as int),
            None => first_index_of(list.deep_view(), item@) is None,
        },
{
    let ghost all = list.deep_view();
    let mut i: usize = 0;
    while i < list.len()
        invariant
            i <= list.len(),
            all == list.deep_view(),
            first_index_of(all.take(i as int), item@) is None,
        decreases list.len() - i,
    {
        assert(all.take(i + 1).drop_last() =~= all.take(i as int));
        assert(all.take(i + 1).last() == list@[i as int]@);
        if same_text(list[i].as_str(), item) {
            proof {
                lemma_found_stays(all, item@, i as int);
            }
            return Some(i);
        }
        i = i + 1;
    }
    assert(all.take(list.len() as int) =~= all);
    None
}

/// What is found in a prefix is found in the whole list.
proof fn lemma_found_stays(list: Seq<Seq<char>>, item: Seq<char>, i: int)
    requires
        0 <= i < list.len(),
        first_index_of(list.take(i + 1), item) == Some(i),
    ensures
        first_index_of(list, item) == Some(i),
    decreases list.len(),
{
    if list.len() > i + 1 {
        assert(list.drop_last().take(i + 1) =~= list.take(i + 1));
        lemma_found_stays(list.drop_last(), item, i);
    } else {
        assert(list.take(i + 1) =~= list);
    }
}

/// The option that the user chose from `descriptions`: the first option
/// whose description is `answer`, or the first option of all where none is;
/// without an answer the option `default`, or the first option of all where
/// there is no default.
pub open spec fn chosen_option(
    descriptions: Seq<Seq<char>>,
    answer: Option<Seq<char>>,
    default: Option<usize>,
) -> int {
    match answer {
        Some(a) => match first_index_of(descriptions, a) {
            Some(i) => i,
            None => 0,
        },
        None => match default {
            Some(d) => d as int,
            None => 0,
        },
    }
}

/// Resolves the answer to a question with one choice to the index of an
/// option.
pub fn choice_index(descriptions: &Vec<String>, answer: Option<&str>, default: Option<usize>) -> (index:
    usize)
    ensures
        index == chosen_option(
            descriptions.deep_view(),
            match answer {
                Some(a) => Some(a@),
                None => None,
            },
            default,
        ),
{
    match answer {
        Some(a) => match position(descriptions, a) {
            Some(i) => i,
            None => 0,
        },
        None => match default {
            Some(d) => d,
            None => 0,
        },
    }
}

/// The options that `answers` stand for: for each answer that is the
/// description of an option, the first such option; other answers stand
/// for nothing.
pub open spec fn chosen_options(descriptions: Seq<Seq<char>>, answers: Seq<Seq<char>>) -> Seq<int>
    decreases answers.len(),
{
    if answers.len() == 0 {
        Seq::empty()
    } else {
        let front = chosen_options(descriptions, answers.drop_last());
        match first_index_of(descriptions, answers.last()) {
            Some(i) => front.push(i),
            None => front,
        }
    }
}

/// Resolves the answers to a question with several choices to the indices
/// of options.
pub fn choice_indices(descriptions: &Vec<String>, answers: &Vec<String>) -> (indices: Vec<usize>)
    ensures
        indices@.map_values(|i: usize| i as int) == chosen_options(
            descriptions.deep_view(),
            answers.deep_view(),
        ),
{
    let ghost all = answers.deep_view();
    let mut indices: Vec<usize> = Vec::new();
    let mut k: usize = 0;
    assert(all.take(0) =~= Seq::<Seq<char>>::empty());
    assert(indices@.map_values(|i: usize| i as int) =~= Seq::<int>::empty());
    while k < answers.len()
        invariant
            k <= answers.len(),
            all == answers.deep_view(),
            indices@.map_values(|i: usize| i as int) == chosen_options(
                descriptions.deep_view(),
                all.take(k as int),
            ),
        decreases answers.len() - k,
    {
        let ghost before = indices@.map_values(|i: usize| i as int);
        assert(all.take(k + 1).drop_last() =~= all.take(k as int));
        assert(all.take(k + 1).last() == answers@[k as int]@);
        match position(descriptions, answers[k].as_str()) {
            Some(i) => {
                indices.push(i);
                assert(indices@.map_values(|i: usize| i as int) =~= before.push(i as int));
            },
            None => {},
        }
        k = k + 1;
    }
    assert(all.take(answers.len() as int) =~= all);
    indices
}

/// What the wizard found out.
#[derive(Debug, Clone, PartialEq, Eq)]
pub struct WizardConfig {
    pub editor: String,
    pub browser: String,
    pub languages: Vec<String>,
    pub install_path: Option<String>,
    pub install_extras: bool,
}

/// The mathematical content of a [`WizardConfig`].
pub struct WizardConfigView {
    pub editor: Seq<char>,
    pub browser: Seq<char>,
    pub languages: Seq<Seq<char>>,
    pub install_path: Option<Seq<char>>,
    pub install_extras: bool,
}

impl View for WizardConfig {
    type V = WizardConfigView;

    open spec fn view(&self) -> WizardConfigView {
        WizardConfigView {
            editor: self.editor@,
            browser: self.browser@,
            languages: self.languages.deep_view(),
            install_path: match self.install_path {
                Some(p) => Some(p@),
                None => None,
            },
            install_extras: self.install_extras,
        }
    }
}

/// The lines that sum up `config`: editor, browser and languages, then the
/// installation path where one was chosen, then the additional tools where
/// they were asked for.
pub open spec fn summary_of(config: WizardConfigView) -> Seq<Seq<char>> {
    let base = seq![
        "Editor: "@ + config.editor,
        "Browser: "@ + config.browser,
        "Languages: "@ + joined(config.languages, ", "@),
    ];
    let with_path = match config.install_path {
        Some(p) => base.push("Install path: "@ + p),
        None => base,
    };
    if config.install_extras {
        with_path.push("Additional tools: Yes"@)
    } else {
        with_path
    }
}

/// The value that stands for "none of the above" among the options of a
/// question; the wizard then asks for the value itself.
pub open spec fn is_other(value: Seq<char>) -> bool {
    value == "other"@
}

/// The value that the user settled on: the chosen option, or, where that
/// is "other", what the user wrote instead.
pub fn settle_choice(choice: &str, written: Option<&str>) -> (value: String)
    ensures
        value@ == if is_other(choice@) {
            match written {
                Some(w) => w@,
                None => Seq::empty(),
            }
        } else {
            choice@
        },
{
    if same_text(choice, "other") {
        match written {
            Some(w) => String::from_str(w),
            None => String::new(),
        }
    } else {
        String::from_str(choice)
    }
}

impl WizardConfig {
    /// The lines that sum up the configuration before the user confirms it.
    pub fn summary(&self) -> (lines: Vec<String>)
        ensures
            lines.deep_view() == summary_of(self@),
    {
        let mut lines: Vec<String> = Vec::new();
        let mut editor = String::from_str("Editor: ");
        editor.append(self.editor.as_str());
        let mut browser = String::from_str("Browser: ");
        browser.append(self.browser.as_str());
        let mut languages = String::from_str("Languages: ");
        languages.append(join(&self.languages, ", ").as_str());
        lines.push(editor);
        lines.push(browser);
        lines.push(languages);
        assert(lines.deep_view() =~= seq![
            "Editor: "@ + self@.editor,
            "Browser: "@ + self@.browser,
            "Languages: "@ + joined(self@.languages, ", "@),
        ]);
        match &self.install_path {
            Some(path) => {
                let ghost before = lines.deep_view();
                let mut line = String::from_str("Install path: ");
                line.append(path.as_str());
                lines.push(line);
                assert(lines.deep_view() =~= before.push("Install path: "@ + path@));
            },
            None => {},
        }
        if self.install_extras {
            let ghost before = lines.deep_view();
            lines.push(String::from_str("Additional tools: Yes"));
            assert(lines.deep_view() =~= before.push("Additional tools: Yes"@));
        }
        lines
    }
}

} // verus!
