//! The configuration: named categories of image paths and the viewer
//! argument.
use vstd::prelude::*;

verus! {

/// A named group of image paths.
#[derive(Debug, PartialEq, Eq)]
pub struct Category {
    pub name: String,
    pub paths: Vec<String>,
}

/// The categories in declared order and the argument handed to the viewer.
#[derive(Debug, PartialEq, Eq)]
pub struct Config {
    pub categories: Vec<Category>,
    pub feh_arg: String,
}

/// A category as plain text.
pub struct CategoryView {
    pub name: Seq<char>,
    pub paths: Seq<Seq<char>>,
}

/// A configuration as plain text.
pub struct ConfigView {
    pub categories: Seq<CategoryView>,
    pub feh_arg: Seq<char>,
}

impl View for Category {
    type V = CategoryView;

    open spec fn view(&self) -> CategoryView {
        CategoryView { name: self.name@, paths: texts(self.paths@) }
    }
}

impl View for Config {
    type V = ConfigView;

    open spec fn view(&self) -> ConfigView {
        ConfigView { categories: category_views(self.categories@), feh_arg: self.feh_arg@ }
    }
}

/// The views of a sequence of categories.
pub open spec fn category_views(categories: Seq<Category>) -> Seq<CategoryView> {
    Seq::new(categories.len(), |i: int| categories[i]@)
}

/// The character sequences of a sequence of strings.
pub open spec fn texts(items: Seq<String>) -> Seq<Seq<char>> {
    Seq::new(items.len(), |i: int| items[i]@)
}

/// The names of `categories`, in order.
pub open spec fn names_of(categories: Seq<CategoryView>) -> Seq<Seq<char>> {
    Seq::new(categories.len(), |i: int| categories[i].name)
}

/// The first index at or after `start` whose category is named `wanted`.
pub open spec fn first_named_from(
    categories: Seq<CategoryView>,
    wanted: Seq<char>,
    start: int,
) -> Option<int>
    decreases categories.len() - start,
{
    if start < 0 || start >= categories.len() {
        None
    } else if categories[start].name == wanted {
        Some(start)
    } else {
        first_named_from(categories, wanted, start + 1)
    }
}

/// The index of the first category named `wanted`, if there is one.
pub open spec fn first_named(categories: Seq<CategoryView>, wanted: Seq<char>) -> Option<int> {
    first_named_from(categories, wanted, 0)
}

/// `first_named_from` finds a category of that name, none before it has the
/// name, and it finds nothing only where no category from `start` on has it.
pub proof fn lemma_first_named_from(categories: Seq<CategoryView>, wanted: Seq<char>, start: int)
    requires
        0 <= start,
    ensures
        match first_named_from(categories, wanted, start) {
            Some(i) => {
                &&& start <= i < categories.len()
                &&& categories[i].name == wanted
                &&& forall|k: int| start <= k < i ==> (#[trigger] categories[k]).name != wanted
            },
            None => forall|k: int|
                start <= k < categories.len() ==> (#[trigger] categories[k]).name != wanted,
        },
    decreases categories.len() - start,
{
    if start < categories.len() && categories[start].name != wanted {
        lemma_first_named_from(categories, wanted, start + 1);
    }
}

impl Config {
    /// The category names in declared order, repeated names included.
    pub fn category_names(&self) -> (names: Vec<String>)
        ensures
            texts(names@) == names_of(self@.categories),
    {
        let mut names: Vec<String> = Vec::new();
        let mut i: usize = 0;
        while i < self.categories.len()
            invariant
                i <= self.categories.len(),
                names.len() == i,
                forall|k: int| 0 <= k < i ==> (#[trigger] names[k])@ == self.categories[k].name@,
            decreases self.categories.len() - i,
        {
            names.push(self.categories[i].name.clone());
            i += 1;
        }
        assert(texts(names@) =~= names_of(self@.categories));
        names
    }

    /// The index of the first category whose name is exactly `wanted`.
    pub fn find_exact(&self, wanted: &str) -> (found: Option<usize>)
        ensures
            match found {
                Some(i) => {
                    &&& i < self.categories.len()
                    &&& self@.categories[i as int].name == wanted@
                    &&& forall|k: int|
                        0 <= k < i ==> (#[trigger] self@.categories[k]).name != wanted@
                    &&& first_named(self@.categories, wanted@) == Some(i as int)
                },
                None => {
                    &&& forall|k: int|
                        0 <= k < self.categories.len() ==> (#[trigger] self@.categories[k]).name
                            != wanted@
                    &&& first_named(self@.categories, wanted@) is None
                },
            },
    {
        let wanted_name: String = wanted.to_owned();
        let mut i: usize = 0;
        while i < self.categories.len()
            invariant
                i <= self.categories.len(),
                wanted_name@ == wanted@,
                first_named(self@.categories, wanted@) == first_named_from(
                    self@.categories,
                    wanted@,
                    i as int,
                ),
            decreases self.categories.len() - i,
        {
            if self.categories[i].name == wanted_name {
                proof {
                    lemma_first_named_from(self@.categories, wanted@, 0);
                }
                return Some(i);
            }
            i += 1;
        }
        proof {
            lemma_first_named_from(self@.categories, wanted@, 0);
        }
        None
    }

    /// The index of the first category whose name is `name` without its
    /// surrounding whitespace. Names are compared character by character.
    pub fn find_category(&self, name: &str) -> (found: Option<usize>)
        ensures
            match found {
                Some(i) => {
                    &&& i < self.categories.len()
                    &&& self@.categories[i as int].name == crate::text::trimmed(name@)
                    &&& forall|k: int|
                        0 <= k < i ==> (#[trigger] self@.categories[k]).name
                            != crate::text::trimmed(name@)
                    &&& first_named(self@.categories, crate::text::trimmed(name@)) == Some(i as int)
                },
                None => {
                    &&& forall|k: int|
                        0 <= k < self.categories.len() ==> (#[trigger] self@.categories[k]).name
                            != crate::text::trimmed(name@)
                    &&& first_named(self@.categories, crate::text::trimmed(name@)) is None
                },
            },
    {
        self.find_exact(crate::text::trim(name))
    }
}

/// Whitespace around a requested name does not change which category it
/// names.
pub proof fn lemma_lookup_ignores_padding(
    categories: Seq<CategoryView>,
    before: Seq<char>,
    name: Seq<char>,
    after: Seq<char>,
)
    requires
        crate::text::all_whitespace(before),
        crate::text::all_whitespace(after),
    ensures
        first_named(categories, crate::text::trimmed(before + name + after)) == first_named(
            categories,
            crate::text::trimmed(name),
        ),
{
    crate::text::lemma_trimmed_ignores_padding(before, name, after);
}

} // verus!
