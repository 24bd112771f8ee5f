//! Option lists.

use vstd::prelude::*;

use super::names::{same_text, NamedVariants};

verus! {

/// The texts of a list of strings.
pub open spec fn texts(strings: Seq<String>) -> Seq<Seq<char>> {
    Seq::new(strings.len(), |i: int| strings[i]@)
}

/// The names of a list of variants.
pub open spec fn names_of<T: NamedVariants>(variants: Seq<T>) -> Seq<Seq<char>> {
    Seq::new(variants.len(), |i: int| variants[i].spec_name())
}

/// The options of a selectable setting: the raw option names that values
/// are compared with, and the label shown for each, at the same position.
#[derive(Clone, Debug, PartialEq, Eq)]
pub struct Select {
    pub options: Vec<String>,
    pub localized_options: Vec<String>,
}

impl Select {
    /// The raw option names.
    pub open spec fn spec_options(self) -> Seq<Seq<char>> {
        texts(self.options@)
    }

    /// The labels.
    pub open spec fn spec_localized_options(self) -> Seq<Seq<char>> {
        texts(self.localized_options@)
    }

    /// Every option has its label.
    pub open spec fn wf(self) -> bool {
        self.options@.len() == self.localized_options@.len()
    }

    /// Whether a text is one of the options.
    pub open spec fn spec_has_option(self, selection: Seq<char>) -> bool {
        self.spec_options().contains(selection)
    }

    /// The options and labels given, if there is one label per option.
    pub fn new(options: Vec<String>, localized_options: Vec<String>) -> (r: Option<Select>)
        ensures
            r is Some <==> options@.len() == localized_options@.len(),
            r matches Some(select) ==> select.options == options && select.localized_options
                == localized_options,
    {
        if options.len() == localized_options.len() {
            Some(Select { options, localized_options })
        } else {
            None
        }
    }

    /// The options that are the names of the given variants, each labelled
    /// with its own name until a front-end puts its labels in.
    pub fn from_enum<T: NamedVariants>(variants: &[T]) -> (r: Select)
        ensures
            r.wf(),
            r.spec_options() == names_of(variants@),
            r.spec_localized_options() == names_of(variants@),
    {
        let mut options: Vec<String> = Vec::new();
        let mut localized_options: Vec<String> = Vec::new();
        let mut i: usize = 0;
        while i < variants.len()
            invariant
                i <= variants@.len(),
                options@.len() == i,
                localized_options@.len() == i,
                forall|j: int| 0 <= j < i ==> (#[trigger] options@[j])@ == variants@[j].spec_name(),
                forall|j: int|
                    0 <= j < i ==> (#[trigger] localized_options@[j])@ == variants@[j].spec_name(),
            decreases variants@.len() - i,
        {
            let name = variants[i].name();
            options.push(name.to_owned());
            localized_options.push(name.to_owned());
            i = i + 1;
        }
        let select = Select { options, localized_options };
        assert(select.spec_options() =~= names_of(variants@));
        assert(select.spec_localized_options() =~= names_of(variants@));
        select
    }

    /// The position of the first option that equals `selection`.
    pub fn position(&self, selection: &str) -> (r: Option<usize>)
        ensures
            r matches Some(i) ==> self.spec_options().index_of_first(selection@) == Some(i as int),
            r is None ==> self.spec_options().index_of_first(selection@) is None,
    {
        let ghost options = self.spec_options();
        let mut i: usize = 0;
        while i < self.options.len()
            invariant
                i <= self.options@.len(),
                options == self.spec_options(),
                forall|j: int| 0 <= j < i ==> options[j] != selection@,
            decreases self.options@.len() - i,
        {
            if same_text(self.options[i].as_str(), selection) {
                proof {
                    assert(options[i as int] == selection@);
                    options.index_of_first_ensures(selection@);
                }
                return Some(i);
            }
            i = i + 1;
        }
        proof {
            options.index_of_first_ensures(selection@);
        }
        None
    }

    /// The label at a position, if there is one.
    pub fn localized_option(&self, position: usize) -> (r: Option<&String>)
        ensures
            r is Some <==> position < self.localized_options@.len(),
            r matches Some(label) ==> label@ == self.spec_localized_options()[position as int],
    {
        if position < self.localized_options.len() {
            Some(&self.localized_options[position])
        } else {
            None
        }
    }
}

} // verus!
