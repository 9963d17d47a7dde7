//! The settings of bindings generation.

use vstd::prelude::*;
use crate::ownership::Ownership;
use crate::text::{
    distinct_texts, first_texts, keys_are_distinct, keys_of, opt_text, text_pairs, texts,
};

verus! {

/// The settings of bindings generation.
#[derive(Debug, Clone)]
pub struct Bindings {
    /// Whether the bindings are formatted after generation; true unless set.
    pub format: bool,
    /// The ownership model of generated types.
    pub ownership: Ownership,
    /// Further derives to put on generated types.
    pub derives: Vec<String>,
    /// Whether code generation puts what depends on `std` behind a feature.
    pub std_feature: bool,
    /// Whether borrowed string arguments are passed as bytes.
    pub raw_strings: bool,
    /// Names of functions for which no bindings are generated.
    pub skip: Vec<String>,
    /// Whether stub implementations are generated for what is exported.
    pub stubs: bool,
    /// A prefix for the names of exports.
    pub export_prefix: Option<String>,
    /// The module names that take the place of interface names.
    pub with: Vec<(String, String)>,
    /// A suffix for the name of the section that holds the component type.
    pub type_section_suffix: Option<String>,
    /// Whether the workaround that keeps constructors from running more than
    /// once is switched off.
    pub disable_run_ctors_once_workaround: bool,
    /// The module that the generated export macro refers to by default.
    pub default_bindings_module: Option<String>,
    /// Another name for the generated export macro.
    pub export_macro_name: Option<String>,
    /// Whether the generated export macro is public.
    pub pub_export_macro: bool,
    /// Whether types that nothing uses are generated too.
    pub generate_unused_types: bool,
}

/// What the settings hold, as text.
pub struct BindingsView {
    pub format: bool,
    pub ownership: Ownership,
    pub derives: Seq<Seq<char>>,
    pub std_feature: bool,
    pub raw_strings: bool,
    pub skip: Seq<Seq<char>>,
    pub stubs: bool,
    pub export_prefix: Option<Seq<char>>,
    pub with: Seq<(Seq<char>, Seq<char>)>,
    pub type_section_suffix: Option<Seq<char>>,
    pub disable_run_ctors_once_workaround: bool,
    pub default_bindings_module: Option<Seq<char>>,
    pub export_macro_name: Option<Seq<char>>,
    pub pub_export_macro: bool,
    pub generate_unused_types: bool,
}

impl View for Bindings {
    type V = BindingsView;

    open spec fn view(&self) -> BindingsView {
        BindingsView {
            format: self.format,
            ownership: self.ownership,
            derives: texts(self.derives@),
            std_feature: self.std_feature,
            raw_strings: self.raw_strings,
            skip: texts(self.skip@),
            stubs: self.stubs,
            export_prefix: opt_text(self.export_prefix),
            with: text_pairs(self.with@),
            type_section_suffix: opt_text(self.type_section_suffix),
            disable_run_ctors_once_workaround: self.disable_run_ctors_once_workaround,
            default_bindings_module: opt_text(self.default_bindings_module),
            export_macro_name: opt_text(self.export_macro_name),
            pub_export_macro: self.pub_export_macro,
            generate_unused_types: self.generate_unused_types,
        }
    }
}

impl BindingsView {
    /// The module names stand for a mapping: no interface name stands twice.
    pub open spec fn well_formed(self) -> bool {
        distinct_texts(keys_of(self.with))
    }

    /// The settings where nothing is set: formatting on, owning types,
    /// everything else off, empty or absent.
    pub open spec fn defaults() -> BindingsView {
        BindingsView {
            format: true,
            ownership: Ownership::Owning,
            derives: Seq::empty(),
            std_feature: false,
            raw_strings: false,
            skip: Seq::empty(),
            stubs: false,
            export_prefix: None,
            with: Seq::empty(),
            type_section_suffix: None,
            disable_run_ctors_once_workaround: false,
            default_bindings_module: None,
            export_macro_name: None,
            pub_export_macro: false,
            generate_unused_types: false,
        }
    }
}

/// The settings as a document gives them: each one set or left out.
#[derive(Debug, Clone)]
pub struct BindingsEntry {
    pub format: Option<bool>,
    pub ownership: Option<Ownership>,
    pub derives: Option<Vec<String>>,
    pub std_feature: Option<bool>,
    pub raw_strings: Option<bool>,
    pub skip: Option<Vec<String>>,
    pub stubs: Option<bool>,
    pub export_prefix: Option<String>,
    pub with: Option<Vec<(String, String)>>,
    pub type_section_suffix: Option<String>,
    pub disable_run_ctors_once_workaround: Option<bool>,
    pub default_bindings_module: Option<String>,
    pub export_macro_name: Option<String>,
    pub pub_export_macro: Option<bool>,
    pub generate_unused_types: Option<bool>,
}

/// What the settings of a document hold, as text.
pub struct BindingsEntryView {
    pub format: Option<bool>,
    pub ownership: Option<Ownership>,
    pub derives: Option<Seq<Seq<char>>>,
    pub std_feature: Option<bool>,
    pub raw_strings: Option<bool>,
    pub skip: Option<Seq<Seq<char>>>,
    pub stubs: Option<bool>,
    pub export_prefix: Option<Seq<char>>,
    pub with: Option<Seq<(Seq<char>, Seq<char>)>>,
    pub type_section_suffix: Option<Seq<char>>,
    pub disable_run_ctors_once_workaround: Option<bool>,
    pub default_bindings_module: Option<Seq<char>>,
    pub export_macro_name: Option<Seq<char>>,
    pub pub_export_macro: Option<bool>,
    pub generate_unused_types: Option<bool>,
}

/// The views of an optional list of strings.
pub open spec fn opt_texts(o: Option<Vec<String>>) -> Option<Seq<Seq<char>>> {
    match o {
        Some(v) => Some(texts(v@)),
        None => None,
    }
}

/// The views of an optional list of pairs of strings.
pub open spec fn opt_text_pairs(o: Option<Vec<(String, String)>>) -> Option<
    Seq<(Seq<char>, Seq<char>)>,
> {
    match o {
        Some(v) => Some(text_pairs(v@)),
        None => None,
    }
}

impl View for BindingsEntry {
    type V = BindingsEntryView;

    open spec fn view(&self) -> BindingsEntryView {
        BindingsEntryView {
            format: self.format,
            ownership: self.ownership,
            derives: opt_texts(self.derives),
            std_feature: self.std_feature,
            raw_strings: self.raw_strings,
            skip: opt_texts(self.skip),
            stubs: self.stubs,
            export_prefix: opt_text(self.export_prefix),
            with: opt_text_pairs(self.with),
            type_section_suffix: opt_text(self.type_section_suffix),
            disable_run_ctors_once_workaround: self.disable_run_ctors_once_workaround,
            default_bindings_module: opt_text(self.default_bindings_module),
            export_macro_name: opt_text(self.export_macro_name),
            pub_export_macro: self.pub_export_macro,
            generate_unused_types: self.generate_unused_types,
        }
    }
}

impl BindingsEntryView {
    /// The module names, where given, stand for a mapping: no interface name
    /// stands twice.
    pub open spec fn well_formed(self) -> bool {
        self.with matches Some(with) ==> distinct_texts(keys_of(with))
    }

    /// The document that sets nothing.
    pub open spec fn empty() -> BindingsEntryView {
        BindingsEntryView {
            format: None,
            ownership: None,
            derives: None,
            std_feature: None,
            raw_strings: None,
            skip: None,
            stubs: None,
            export_prefix: None,
            with: None,
            type_section_suffix: None,
            disable_run_ctors_once_workaround: None,
            default_bindings_module: None,
            export_macro_name: None,
            pub_export_macro: None,
            generate_unused_types: None,
        }
    }
}

/// A setting that a document gives, or else its default.
pub open spec fn set_or<T>(o: Option<T>, default: T) -> T {
    match o {
        Some(v) => v,
        None => default,
    }
}

/// The settings that a document stands for: each one as the document sets it,
/// or at its default where the document leaves it out.
pub open spec fn bindings_of_entry(e: BindingsEntryView) -> BindingsView {
    let d = BindingsView::defaults();
    BindingsView {
        format: set_or(e.format, d.format),
        ownership: set_or(e.ownership, d.ownership),
        derives: set_or(e.derives, d.derives),
        std_feature: set_or(e.std_feature, d.std_feature),
        raw_strings: set_or(e.raw_strings, d.raw_strings),
        skip: set_or(e.skip, d.skip),
        stubs: set_or(e.stubs, d.stubs),
        export_prefix: e.export_prefix,
        with: set_or(e.with, d.with),
        type_section_suffix: e.type_section_suffix,
        disable_run_ctors_once_workaround: set_or(
            e.disable_run_ctors_once_workaround,
            d.disable_run_ctors_once_workaround,
        ),
        default_bindings_module: e.default_bindings_module,
        export_macro_name: e.export_macro_name,
        pub_export_macro: set_or(e.pub_export_macro, d.pub_export_macro),
        generate_unused_types: set_or(e.generate_unused_types, d.generate_unused_types),
    }
}

impl Default for BindingsEntry {
    fn default() -> (r: Self)
        ensures
            r@ == BindingsEntryView::empty(),
    {
        BindingsEntry {
            format: None,
            ownership: None,
            derives: None,
            std_feature: None,
            raw_strings: None,
            skip: None,
            stubs: None,
            export_prefix: None,
            with: None,
            type_section_suffix: None,
            disable_run_ctors_once_workaround: None,
            default_bindings_module: None,
            export_macro_name: None,
            pub_export_macro: None,
            generate_unused_types: None,
        }
    }
}

impl Default for Bindings {
    fn default() -> (r: Self)
        ensures
            r@ == BindingsView::defaults(),
            r@.well_formed(),
    {
        let r = Bindings {
            format: true,
            ownership: Ownership::Owning,
            derives: Vec::new(),
            std_feature: false,
            raw_strings: false,
            skip: Vec::new(),
            stubs: false,
            export_prefix: None,
            with: Vec::new(),
            type_section_suffix: None,
            disable_run_ctors_once_workaround: false,
            default_bindings_module: None,
            export_macro_name: None,
            pub_export_macro: false,
            generate_unused_types: false,
        };
        assert(r@.derives =~= Seq::empty());
        assert(r@.skip =~= Seq::empty());
        assert(r@.with =~= Seq::empty());
        r
    }
}

/// A flag that a document gives, or else its default.
fn flag_or(o: Option<bool>, default: bool) -> (r: bool)
    ensures
        r == set_or(o, default),
{
    match o {
        Some(v) => v,
        None => default,
    }
}

/// A list of strings that a document gives, or else the empty list.
fn list_or_empty(o: Option<Vec<String>>) -> (r: Vec<String>)
    ensures
        texts(r@) == set_or(opt_texts(o), Seq::empty()),
{
    match o {
        Some(v) => v,
        None => {
            let v: Vec<String> = Vec::new();
            assert(texts(v@) =~= Seq::empty());
            v
        },
    }
}

impl Bindings {
    /// Tells whether the module names stand for a mapping: whether no
    /// interface name stands twice.
    pub fn is_well_formed(&self) -> (r: bool)
        ensures
            r == self@.well_formed(),
    {
        assert(first_texts(self.with@) =~= keys_of(text_pairs(self.with@)));
        keys_are_distinct(&self.with)
    }

    /// Builds the settings from a document: what it sets is taken, what it
    /// leaves out is at its default.
    pub fn from_entry(entry: BindingsEntry) -> (r: Bindings)
        ensures
            r@ == bindings_of_entry(entry@),
            entry@.well_formed() ==> r@.well_formed(),
    {
        let with = match entry.with {
            Some(v) => v,
            None => {
                let v: Vec<(String, String)> = Vec::new();
                assert(text_pairs(v@) =~= Seq::empty());
                v
            },
        };
        Bindings {
            format: flag_or(entry.format, true),
            ownership: match entry.ownership {
                Some(o) => o,
                None => Ownership::Owning,
            },
            derives: list_or_empty(entry.derives),
            std_feature: flag_or(entry.std_feature, false),
            raw_strings: flag_or(entry.raw_strings, false),
            skip: list_or_empty(entry.skip),
            stubs: flag_or(entry.stubs, false),
            export_prefix: entry.export_prefix,
            with,
            type_section_suffix: entry.type_section_suffix,
            disable_run_ctors_once_workaround: flag_or(
                entry.disable_run_ctors_once_workaround,
                false,
            ),
            default_bindings_module: entry.default_bindings_module,
            export_macro_name: entry.export_macro_name,
            pub_export_macro: flag_or(entry.pub_export_macro, false),
            generate_unused_types: flag_or(entry.generate_unused_types, false),
        }
    }
}

/// A document that sets nothing stands for the default settings, and one that
/// only switches stub generation on stands for the default settings with stub
/// generation on and every other setting at its default.
pub proof fn only_stubs_set(stubs: bool)
    ensures
        bindings_of_entry(BindingsEntryView::empty()) == BindingsView::defaults(),
        bindings_of_entry(BindingsEntryView { stubs: Some(stubs), ..BindingsEntryView::empty() })
            == (BindingsView { stubs, ..BindingsView::defaults() }),
{
}

} // verus!
