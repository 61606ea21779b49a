//! The arguments of the macro that includes a manifest: each given at most
//! once, three of them required, the manifest given inline or as a file,
//! and the serde path defaulting to `::serde`.
//!
//! The macro reads the tokens of each `key = value` entry; the entries, with
//! the text of their values, are assembled here.

use vstd::prelude::*;

verus! {

/// The key of an entry.
#[derive(Debug, Clone, Copy, PartialEq, Eq, Structural)]
pub enum EntryKey {
    SerdePath,
    ExtImplTy,
    CommandReturnTy,
    CommandReturnTrait,
    Inline,
    File,
}

/// One `key = value` entry, with the text of its value.
#[derive(Debug, Clone)]
pub struct Entry {
    pub key: EntryKey,
    pub value: String,
}

/// Where the manifest comes from: a file, by its path relative to the
/// crate, or the text itself.
#[derive(Debug, Clone, PartialEq, Eq)]
pub enum ManifestSource {
    File(String),
    Inline(String),
}

/// [`ManifestSource`] with its text taken as characters.
pub enum SourceView {
    File(Seq<char>),
    Inline(Seq<char>),
}

impl View for ManifestSource {
    type V = SourceView;

    open spec fn view(&self) -> SourceView {
        match self {
            ManifestSource::File(s) => SourceView::File(s@),
            ManifestSource::Inline(s) => SourceView::Inline(s@),
        }
    }
}

/// The assembled arguments, each value as text.
#[derive(Debug, Clone)]
pub struct MacroArgs {
    pub serde_path: String,
    pub ext_impl_ty: String,
    pub command_return_ty: String,
    pub command_return_trait: String,
    pub format: ManifestSource,
}

/// [`MacroArgs`] with its texts taken as characters.
pub struct ArgsView {
    pub serde_path: Seq<char>,
    pub ext_impl_ty: Seq<char>,
    pub command_return_ty: Seq<char>,
    pub command_return_trait: Seq<char>,
    pub format: SourceView,
}

impl View for MacroArgs {
    type V = ArgsView;

    open spec fn view(&self) -> ArgsView {
        ArgsView {
            serde_path: self.serde_path@,
            ext_impl_ty: self.ext_impl_ty@,
            command_return_ty: self.command_return_ty@,
            command_return_trait: self.command_return_trait@,
            format: self.format@,
        }
    }
}

/// Why the arguments were refused.
#[derive(Debug, Clone, Copy, PartialEq, Eq, Structural)]
pub enum MacroArgsError {
    /// This key (not `inline` or `file`) was given a second time; reported
    /// at that second entry.
    Repeated(EntryKey),
    /// `inline` or `file` was given after one of them already was; reported
    /// at that entry.
    SecondSource,
    /// This required key was not given; reported at the whole input.
    Missing(EntryKey),
    /// Neither `inline` nor `file` was given; reported at the whole input.
    NoSource,
}

/// What has been read so far.
pub struct ArgsSeen {
    pub serde_path: Option<Seq<char>>,
    pub ext_impl_ty: Option<Seq<char>>,
    pub command_return_ty: Option<Seq<char>>,
    pub command_return_trait: Option<Seq<char>>,
    pub format: Option<SourceView>,
}

pub open spec fn nothing_seen() -> ArgsSeen {
    ArgsSeen {
        serde_path: None,
        ext_impl_ty: None,
        command_return_ty: None,
        command_return_trait: None,
        format: None,
    }
}

/// Reading one more entry: a key other than `inline` and `file` may be set
/// once; `inline` and `file` together may be set once.
pub open spec fn entry_step(st: ArgsSeen, key: EntryKey, value: Seq<char>) -> Result<
    ArgsSeen,
    MacroArgsError,
> {
    match key {
        EntryKey::SerdePath => if st.serde_path is Some {
            Err(MacroArgsError::Repeated(key))
        } else {
            Ok(ArgsSeen { serde_path: Some(value), ..st })
        },
        EntryKey::ExtImplTy => if st.ext_impl_ty is Some {
            Err(MacroArgsError::Repeated(key))
        } else {
            Ok(ArgsSeen { ext_impl_ty: Some(value), ..st })
        },
        EntryKey::CommandReturnTy => if st.command_return_ty is Some {
            Err(MacroArgsError::Repeated(key))
        } else {
            Ok(ArgsSeen { command_return_ty: Some(value), ..st })
        },
        EntryKey::CommandReturnTrait => if st.command_return_trait is Some {
            Err(MacroArgsError::Repeated(key))
        } else {
            Ok(ArgsSeen { command_return_trait: Some(value), ..st })
        },
        EntryKey::Inline => if st.format is Some {
            Err(MacroArgsError::SecondSource)
        } else {
            Ok(ArgsSeen { format: Some(SourceView::Inline(value)), ..st })
        },
        EntryKey::File => if st.format is Some {
            Err(MacroArgsError::SecondSource)
        } else {
            Ok(ArgsSeen { format: Some(SourceView::File(value)), ..st })
        },
    }
}

/// The entries as keys and value texts.
pub open spec fn entries_view(entries: Seq<Entry>) -> Seq<(EntryKey, Seq<char>)> {
    entries.map_values(|e: Entry| (e.key, e.value@))
}

/// Reading the entries in order; the first refused entry gives the error.
pub open spec fn scan_entries(entries: Seq<(EntryKey, Seq<char>)>) -> Result<ArgsSeen, MacroArgsError>
    decreases entries.len(),
{
    if entries.len() == 0 {
        Ok(nothing_seen())
    } else {
        match scan_entries(entries.drop_last()) {
            Err(e) => Err(e),
            Ok(st) => entry_step(st, entries.last().0, entries.last().1),
        }
    }
}

/// What the entries give: the read values, with `::serde` as the serde
/// path when none is given, or the first error; once all entries are read,
/// the missing keys are checked in the order `ext_impl_ty`,
/// `command_return_ty`, `command_return_trait`, then the source.
pub open spec fn assemble(entries: Seq<(EntryKey, Seq<char>)>) -> Result<ArgsView, MacroArgsError> {
    match scan_entries(entries) {
        Err(e) => Err(e),
        Ok(st) => if st.ext_impl_ty is None {
            Err(MacroArgsError::Missing(EntryKey::ExtImplTy))
        } else if st.command_return_ty is None {
            Err(MacroArgsError::Missing(EntryKey::CommandReturnTy))
        } else if st.command_return_trait is None {
            Err(MacroArgsError::Missing(EntryKey::CommandReturnTrait))
        } else if st.format is None {
            Err(MacroArgsError::NoSource)
        } else {
            Ok(
                ArgsView {
                    serde_path: match st.serde_path {
                        Some(p) => p,
                        None => "::serde"@,
                    },
                    ext_impl_ty: st.ext_impl_ty->0,
                    command_return_ty: st.command_return_ty->0,
                    command_return_trait: st.command_return_trait->0,
                    format: st.format->0,
                },
            )
        },
    }
}

spec fn text_of(o: Option<String>) -> Option<Seq<char>> {
    match o {
        Some(s) => Some(s@),
        None => None,
    }
}

spec fn source_of(o: Option<ManifestSource>) -> Option<SourceView> {
    match o {
        Some(s) => Some(s@),
        None => None,
    }
}

/// Assembles the macro's arguments from its entries, in the order given.
pub fn assemble_args(entries: &Vec<Entry>) -> (r: Result<MacroArgs, MacroArgsError>)
    ensures
        match r {
            Ok(args) => assemble(entries_view(entries@)) matches Ok(v) && args@ == v,
            Err(e) => assemble(entries_view(entries@)) == Err::<ArgsView, MacroArgsError>(e),
        },
{
    let ghost all = entries_view(entries@);
    let mut serde_path: Option<String> = None;
    let mut ext_impl_ty: Option<String> = None;
    let mut command_return_ty: Option<String> = None;
    let mut command_return_trait: Option<String> = None;
    let mut format: Option<ManifestSource> = None;
    let mut i: usize = 0;
    assert(all.take(0) =~= Seq::<(EntryKey, Seq<char>)>::empty());
    while i < entries.len()
        invariant
            all == entries_view(entries@),
            i <= entries@.len(),
            scan_entries(all.take(i as int)) == Ok::<ArgsSeen, MacroArgsError>(
                ArgsSeen {
                    serde_path: text_of(serde_path),
                    ext_impl_ty: text_of(ext_impl_ty),
                    command_return_ty: text_of(command_return_ty),
                    command_return_trait: text_of(command_return_trait),
                    format: source_of(format),
                },
            ),
        decreases entries@.len() - i,
    {
        let entry = &entries[i];
        let value = entry.value.clone();
        let ghost prev = all.take(i as int);
        assert(all.take(i + 1).drop_last() =~= prev);
        assert(all.take(i + 1).last() == (entry.key, entry.value@));
        match entry.key {
            EntryKey::SerdePath => {
                if serde_path.is_some() {
                    proof {
                        lemma_scan_error_persists(all, i + 1);
                    }
                    return Err(MacroArgsError::Repeated(EntryKey::SerdePath));
                }
                serde_path = Some(value);
            },
            EntryKey::ExtImplTy => {
                if ext_impl_ty.is_some() {
                    proof {
                        lemma_scan_error_persists(all, i + 1);
                    }
                    return Err(MacroArgsError::Repeated(EntryKey::ExtImplTy));
                }
                ext_impl_ty = Some(value);
            },
            EntryKey::CommandReturnTy => {
                if command_return_ty.is_some() {
                    proof {
                        lemma_scan_error_persists(all, i + 1);
                    }
                    return Err(MacroArgsError::Repeated(EntryKey::CommandReturnTy));
                }
                command_return_ty = Some(value);
            },
            EntryKey::CommandReturnTrait => {
                if command_return_trait.is_some() {
                    proof {
                        lemma_scan_error_persists(all, i + 1);
                    }
                    return Err(MacroArgsError::Repeated(EntryKey::CommandReturnTrait));
                }
                command_return_trait = Some(value);
            },
            EntryKey::Inline => {
                if format.is_some() {
                    proof {
                        lemma_scan_error_persists(all, i + 1);
                    }
                    return Err(MacroArgsError::SecondSource);
                }
                format = Some(ManifestSource::Inline(value));
            },
            EntryKey::File => {
                if format.is_some() {
                    proof {
                        lemma_scan_error_persists(all, i + 1);
                    }
                    return Err(MacroArgsError::SecondSource);
                }
                format = Some(ManifestSource::File(value));
            },
        }
        i = i + 1;
    }
    assert(all.take(entries@.len() as int) =~= all);
    let ext_impl_ty = match ext_impl_ty {
        Some(t) => t,
        None => {
            return Err(MacroArgsError::Missing(EntryKey::ExtImplTy));
        },
    };
    let command_return_ty = match command_return_ty {
        Some(t) => t,
        None => {
            return Err(MacroArgsError::Missing(EntryKey::CommandReturnTy));
        },
    };
    let command_return_trait = match command_return_trait {
        Some(t) => t,
        None => {
            return Err(MacroArgsError::Missing(EntryKey::CommandReturnTrait));
        },
    };
    let format = match format {
        Some(f) => f,
        None => {
            return Err(MacroArgsError::NoSource);
        },
    };
    let serde_path = match serde_path {
        Some(p) => p,
        None => "::serde".to_owned(),
    };
    Ok(MacroArgs { serde_path, ext_impl_ty, command_return_ty, command_return_trait, format })
}

/// Once an entry is refused, reading more entries keeps that error.
proof fn lemma_scan_error_persists(entries: Seq<(EntryKey, Seq<char>)>, j: int)
    requires
        0 <= j <= entries.len(),
        scan_entries(entries.take(j)) is Err,
    ensures
        scan_entries(entries) == scan_entries(entries.take(j)),
    decreases entries.len() - j,
{
    if j < entries.len() {
        assert(entries.take(j + 1).drop_last() =~= entries.take(j));
        lemma_scan_error_persists(entries, j + 1);
    } else {
        assert(entries.take(j) =~= entries);
    }
}

/// The name of a key as it is written.
pub open spec fn key_name(key: EntryKey) -> Seq<char> {
    match key {
        EntryKey::SerdePath => "serde_path"@,
        EntryKey::ExtImplTy => "ext_impl_ty"@,
        EntryKey::CommandReturnTy => "command_return_ty"@,
        EntryKey::CommandReturnTrait => "command_return_trait"@,
        EntryKey::Inline => "inline"@,
        EntryKey::File => "file"@,
    }
}

/// The name of a key as it is written.
pub fn entry_key_name(key: EntryKey) -> (r: &'static str)
    ensures
        r@ == key_name(key),
{
    match key {
        EntryKey::SerdePath => "serde_path",
        EntryKey::ExtImplTy => "ext_impl_ty",
        EntryKey::CommandReturnTy => "command_return_ty",
        EntryKey::CommandReturnTrait => "command_return_trait",
        EntryKey::Inline => "inline",
        EntryKey::File => "file",
    }
}

/// The message of an argument error.
pub open spec fn args_error_message(e: MacroArgsError) -> Seq<char> {
    match e {
        MacroArgsError::Repeated(k) => "`"@ + key_name(k) + "` must be defined once"@,
        MacroArgsError::SecondSource => "exactly one of `inline` or `file` must be defined"@,
        MacroArgsError::Missing(k) => "`"@ + key_name(k) + "` must be defined"@,
        MacroArgsError::NoSource => "exactly one of `inline` or `file` must be defined"@,
    }
}

impl MacroArgsError {
    /// The message of this error.
    pub fn to_string(&self) -> (r: String)
        ensures
            r@ == args_error_message(*self),
    {
        match *self {
            MacroArgsError::Repeated(k) => {
                let mut s = "`".to_owned();
                s.append(entry_key_name(k));
                s.append("` must be defined once");
                s
            },
            MacroArgsError::SecondSource | MacroArgsError::NoSource => {
                "exactly one of `inline` or `file` must be defined".to_owned()
            },
            MacroArgsError::Missing(k) => {
                let mut s = "`".to_owned();
                s.append(entry_key_name(k));
                s.append("` must be defined");
                s
            },
        }
    }
}

} // verus!
