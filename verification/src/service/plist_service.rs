//! Editing plist files: validation, where files may go, and the editor's text fields.
use crate::adapter::plist_doc::PlistDocumentStore;
use crate::domain::job::JobScope;
use crate::domain::plist_document::StandardPlistDocument;
use crate::error::{validation, AppError, AppResult};
use crate::path::{join, path_join};
use crate::string_map::{assoc_insert, keys_ascending, lemma_insert_greatest, StringMap};
use crate::text::{
    append_chars, append_str, contains, contains_str, from_chars, join as join_text, split_chars,
    split_on, split_once, split_once_chars, str_views, strings_of, to_chars, trim, trim_chars,
    trimmed_nonempty, trimmed_nonempty_chars, views, words, words_chars, is_ws, trim_start,
    trim_end, seq_lt,
};
use std::sync::Arc;
use vstd::prelude::*;

verus! {

/// Why a document cannot be saved: a blank label or a blank program.
pub open spec fn document_refusal(d: StandardPlistDocument) -> Option<Seq<char>> {
    if trim(d.label@).len() == 0 {
        Some("Label is required before saving plist"@)
    } else if trim(d.program@).len() == 0 {
        Some("Program is required before saving plist"@)
    } else {
        None
    }
}

/// The directory that a plist of each scope must lie in.
pub open spec fn scope_directory_marker(scope: JobScope) -> Seq<char> {
    match scope {
        JobScope::UserAgent => "/Library/LaunchAgents/"@,
        JobScope::GlobalAgent => "/Library/LaunchAgents/"@,
        JobScope::SystemDaemon => "/Library/LaunchDaemons/"@,
    }
}

/// The refusal of a path outside the directories of its scope.
pub open spec fn outside_scope_message(path: Seq<char>) -> Seq<char> {
    "Path is outside allowed scope directories: "@ + path
}

/// Where a new job's plist goes: the scope's directory (under the home directory for a
/// user agent) and the label with `.plist`.
pub open spec fn new_job_path_for(scope: JobScope, home: Option<Seq<char>>, label: Seq<char>) -> Result<
    Seq<char>,
    Seq<char>,
> {
    let file = label + ".plist"@;
    match scope {
        JobScope::UserAgent => match home {
            Some(h) => Ok(path_join(path_join(h, "Library/LaunchAgents"@), file)),
            None => Err("HOME is not available for creating user agent plist"@),
        },
        JobScope::GlobalAgent => Ok(path_join("/Library/LaunchAgents"@, file)),
        JobScope::SystemDaemon => Ok(path_join("/Library/LaunchDaemons"@, file)),
    }
}

/// The refusal of a token without `=`.
pub open spec fn pair_format_message(token: Seq<char>) -> Seq<char> {
    "Environment variable format invalid: `"@ + token + "` (expected KEY=VALUE)"@
}

/// The entries that `KEY=VALUE` tokens give when stored one after the other into `acc`,
/// keys and values trimmed; the first malformed token or blank key is refused.
pub open spec fn pairs_into(tokens: Seq<Seq<char>>, acc: Seq<(Seq<char>, Seq<char>)>) -> Result<
    Seq<(Seq<char>, Seq<char>)>,
    Seq<char>,
>
    decreases tokens.len(),
{
    if tokens.len() == 0 {
        Ok(acc)
    } else {
        match split_once(tokens[0], '=') {
            None => Err(pair_format_message(tokens[0])),
            Some(kv) => if trim(kv.0).len() == 0 {
                Err("Environment variable key cannot be empty"@)
            } else {
                pairs_into(tokens.drop_first(), assoc_insert(acc, trim(kv.0), trim(kv.1)))
            },
        }
    }
}

/// The variables of a comma-separated `KEY=VALUE` list.
pub open spec fn env_pairs_of(raw: Seq<char>) -> Result<Seq<(Seq<char>, Seq<char>)>, Seq<char>> {
    pairs_into(trimmed_nonempty(split_on(raw, ',')), Seq::empty())
}

/// The `KEY=VALUE` text of each entry.
pub open spec fn pair_texts(entries: Seq<(Seq<char>, Seq<char>)>) -> Seq<Seq<char>> {
    entries.map_values(|e: (Seq<char>, Seq<char>)| e.0 + "="@ + e.1)
}

/// The entries written as a comma-separated `KEY=VALUE` list.
pub open spec fn env_pairs_text(entries: Seq<(Seq<char>, Seq<char>)>) -> Seq<char> {
    join_text(pair_texts(entries), ", "@)
}

/// Text that trimming leaves as it is: empty, or not starting or ending in whitespace.
pub open spec fn untrimmable(s: Seq<char>) -> bool {
    s.len() == 0 || (!is_ws(s[0]) && !is_ws(s.last()))
}

/// A variable that the `KEY=VALUE` list can carry: a non-blank key without `,` or `=`, a
/// value without `,`, neither with whitespace at its ends.
pub open spec fn writable_pair(key: Seq<char>, value: Seq<char>) -> bool {
    &&& key.len() > 0
    &&& untrimmable(key)
    &&& untrimmable(value)
    &&& !key.contains(',')
    &&& !key.contains('=')
    &&& !value.contains(',')
}

proof fn lemma_trim_untrimmable(s: Seq<char>)
    requires
        untrimmable(s),
    ensures
        trim(s) == s,
        trim(" "@ + s) == s,
{
    reveal_strlit(" ");
    assert((" "@ + s).drop_first() =~= s);
    if s.len() == 0 {
        assert(trim_start(" "@ + s) == trim_start(s));
    }
}

proof fn lemma_split_append(a: Seq<char>, b: Seq<char>, c: char)
    requires
        !b.contains(c),
    ensures
        split_on(a + b, c) == split_on(a, c).update(
            split_on(a, c).len() - 1,
            split_on(a, c).last() + b,
        ),
    decreases b.len(),
{
    crate::text::lemma_split_on_len(a, c);
    if b.len() == 0 {
        assert(a + b =~= a);
        assert(split_on(a, c).last() + b =~= split_on(a, c).last());
        assert(split_on(a, c).update(split_on(a, c).len() - 1, split_on(a, c).last())
            =~= split_on(a, c));
    } else {
        let b0 = b.drop_last();
        assert(!b0.contains(c)) by {
            if b0.contains(c) {
                let j = choose|j: int| 0 <= j < b0.len() && b0[j] == c;
                assert(b[j] == c);
            }
        }
        lemma_split_append(a, b0, c);
        assert((a + b).drop_last() =~= a + b0);
        assert((a + b).last() == b.last());
        assert(b.last() != c) by {
            assert(b[b.len() - 1] == b.last());
        }
        assert(split_on(a, c).last() + b0 + seq![b.last()] =~= split_on(a, c).last() + b);
        assert((split_on(a, c).last() + b0).push(b.last()) =~= split_on(a, c).last() + b0 + seq![
            b.last(),
        ]);
    }
}

/// The pieces of the `, `-joined texts when split at `,`: the first text, then each
/// further text after a space.
pub open spec fn spaced(texts: Seq<Seq<char>>) -> Seq<Seq<char>> {
    Seq::new(texts.len(), |i: int| if i == 0 { texts[0] } else { " "@ + texts[i] })
}

proof fn lemma_split_joined(texts: Seq<Seq<char>>)
    requires
        texts.len() >= 1,
        forall|i: int| 0 <= i < texts.len() ==> !(#[trigger] texts[i]).contains(','),
    ensures
        split_on(join_text(texts, ", "@), ',') == spaced(texts),
    decreases texts.len(),
{
    reveal_strlit(", ");
    reveal_strlit(" ");
    if texts.len() == 1 {
        lemma_split_append(Seq::empty(), texts[0], ',');
        assert(Seq::<char>::empty() + texts[0] =~= texts[0]);
        assert(split_on(Seq::<char>::empty(), ',') =~= seq![Seq::<char>::empty()]);
        assert(split_on(texts[0], ',') =~= spaced(texts));
    } else {
        let init = texts.drop_last();
        assert forall|i: int| 0 <= i < init.len() implies !(#[trigger] init[i]).contains(',') by {
            assert(init[i] == texts[i]);
        }
        lemma_split_joined(init);
        let j = join_text(init, ", "@);
        let last = texts.last();
        assert(!last.contains(',')) by {
            assert(texts[texts.len() - 1] == last);
        }
        let tail = " "@ + last;
        assert(!tail.contains(',')) by {
            if tail.contains(',') {
                let x = choose|x: int| 0 <= x < tail.len() && tail[x] == ',';
                if x > 0 {
                    assert(last[x - 1] == ',');
                }
            }
        }
        let jc = j + seq![','];
        assert(jc.drop_last() =~= j);
        assert(split_on(jc, ',') == split_on(j, ',').push(Seq::<char>::empty()));
        lemma_split_append(jc, tail, ',');
        assert(join_text(texts, ", "@) =~= jc + tail);
        assert(Seq::<char>::empty() + tail =~= tail);
        assert(split_on(join_text(texts, ", "@), ',') =~= spaced(init).push(tail));
        assert(spaced(init).push(tail) =~= spaced(texts));
    }
}

proof fn lemma_trimmed_spaced(texts: Seq<Seq<char>>)
    requires
        forall|i: int| 0 <= i < texts.len() ==> (#[trigger] texts[i]).len() > 0 && untrimmable(
            texts[i],
        ),
    ensures
        trimmed_nonempty(spaced(texts)) == texts,
    decreases texts.len(),
{
    if texts.len() > 0 {
        let init = texts.drop_last();
        assert forall|i: int| 0 <= i < init.len() implies (#[trigger] init[i]).len() > 0
            && untrimmable(init[i]) by {
            assert(init[i] == texts[i]);
        }
        lemma_trimmed_spaced(init);
        assert(spaced(texts).drop_last() =~= spaced(init));
        let last = texts[texts.len() - 1];
        lemma_trim_untrimmable(last);
        assert(texts =~= init.push(last));
    }
}

proof fn lemma_pairs_into_written(acc: Seq<(Seq<char>, Seq<char>)>, rest: Seq<(Seq<char>, Seq<char>)>)
    requires
        keys_ascending(acc + rest),
        forall|k: int| 0 <= k < rest.len() ==> writable_pair(#[trigger] rest[k].0, rest[k].1),
    ensures
        pairs_into(pair_texts(rest), acc) == Ok::<Seq<(Seq<char>, Seq<char>)>, Seq<char>>(
            acc + rest,
        ),
    decreases rest.len(),
{
    if rest.len() == 0 {
        assert(acc + rest =~= acc);
    } else {
        let (k0, v0) = rest[0];
        assert(writable_pair(k0, v0));
        let t = pair_texts(rest)[0];
        reveal_strlit("=");
        assert(t =~= k0 + "="@ + v0);
        assert forall|j: int| 0 <= j < k0.len() implies t[j] != '=' by {
            assert(t[j] == k0[j]);
        }
        crate::text::lemma_char_index(t, '=', k0.len() as int);
        assert(t.take(k0.len() as int) =~= k0);
        assert(t.skip(k0.len() as int + 1) =~= v0);
        lemma_trim_untrimmable(k0);
        lemma_trim_untrimmable(v0);
        assert forall|j: int| 0 <= j < acc.len() implies seq_lt(#[trigger] acc[j].0, k0) by {
            assert((acc + rest)[j] == acc[j]);
            assert((acc + rest)[acc.len() as int] == rest[0]);
        }
        lemma_insert_greatest(acc, k0, v0);
        let acc2 = acc.push((k0, v0));
        let rest2 = rest.drop_first();
        assert(acc2 + rest2 =~= acc + rest);
        assert forall|k: int| 0 <= k < rest2.len() implies writable_pair(
            #[trigger] rest2[k].0,
            rest2[k].1,
        ) by {
            assert(rest2[k] == rest[k + 1]);
        }
        lemma_pairs_into_written(acc2, rest2);
        assert(pair_texts(rest).drop_first() =~= pair_texts(rest2));
    }
}

/// Writing variables as the editor's `KEY=VALUE` list and reading the list back gives the
/// same variables, for every sorted set of variables that the list format can carry.
pub proof fn lemma_env_pairs_roundtrip(entries: Seq<(Seq<char>, Seq<char>)>)
    requires
        keys_ascending(entries),
        forall|k: int| 0 <= k < entries.len() ==> writable_pair(#[trigger] entries[k].0, entries[k].1),
    ensures
        env_pairs_of(env_pairs_text(entries)) == Ok::<Seq<(Seq<char>, Seq<char>)>, Seq<char>>(
            entries,
        ),
{
    let texts = pair_texts(entries);
    reveal_strlit("=");
    assert forall|i: int| 0 <= i < texts.len() implies !(#[trigger] texts[i]).contains(',')
        && texts[i].len() > 0 && untrimmable(texts[i]) by {
        let (k, v) = entries[i];
        assert(writable_pair(k, v));
        assert(texts[i] =~= k + "="@ + v);
        if texts[i].contains(',') {
            let x = choose|x: int| 0 <= x < texts[i].len() && texts[i][x] == ',';
            if x < k.len() {
                assert(k[x] == ',');
            } else if x > k.len() {
                assert(v[x - k.len() - 1] == ',');
            }
        }
        assert(texts[i][0] == k[0]);
        if v.len() > 0 {
            assert(texts[i].last() == v.last());
        }
    }
    if entries.len() == 0 {
        assert(env_pairs_text(entries) =~= Seq::<char>::empty());
        assert(split_on(Seq::<char>::empty(), ',') =~= seq![Seq::<char>::empty()]);
        assert(seq![Seq::<char>::empty()].drop_last() =~= Seq::<Seq<char>>::empty());
        assert(trim(Seq::<char>::empty()) =~= Seq::<char>::empty());
        assert(trimmed_nonempty(Seq::<Seq<char>>::empty()) =~= Seq::<Seq<char>>::empty());
        assert(seq![Seq::<char>::empty()].last() == Seq::<char>::empty());
        assert(trimmed_nonempty(seq![Seq::<char>::empty()]) =~= Seq::<Seq<char>>::empty());
    } else {
        lemma_split_joined(texts);
        lemma_trimmed_spaced(texts);
    }
    assert(Seq::<(Seq<char>, Seq<char>)>::empty() + entries =~= entries);
    lemma_pairs_into_written(Seq::empty(), entries);
}

/// Edits plist documents through a store, within the directories of each scope.
pub struct PlistService<S: PlistDocumentStore> {
    store: Arc<S>,
    home_dir: Option<String>,
}

/// What saving `document` over the plist at `path` gives: the document's refusal, the
/// refusal of a path outside the scope's directory, else a result of the store's save.
pub open spec fn saved_over<S: PlistDocumentStore>(
    store: &S,
    path: &str,
    scope: JobScope,
    document: &StandardPlistDocument,
    r: AppResult<()>,
) -> bool {
    match document_refusal(*document) {
        Some(m) => r matches Err(AppError::Validation(e)) && e@ == m,
        None => if !contains(path@, scope_directory_marker(scope)) {
            r matches Err(AppError::Validation(e)) && e@ == outside_scope_message(path@)
        } else {
            call_ensures(S::save_standard_document, (store, path, document), r)
        },
    }
}

/// What creating `document` as a new plist of `scope` gives: the document's refusal, the
/// refusal of its path, else the path where the store's save succeeded, or its error.
pub open spec fn created_as_new<S: PlistDocumentStore>(
    store: &S,
    home: Option<String>,
    scope: JobScope,
    document: &StandardPlistDocument,
    r: AppResult<String>,
) -> bool {
    match document_refusal(*document) {
        Some(m) => r matches Err(AppError::Validation(e)) && e@ == m,
        None => match new_job_path_for(scope, opt_string_view(home), document.label@) {
            Err(m) => r matches Err(AppError::Validation(e)) && e@ == m,
            Ok(p) => exists|q: &str, saved: AppResult<()>|
                q@ == p && #[trigger] call_ensures(
                    S::save_standard_document,
                    (store, q, document),
                    saved,
                ) && match saved {
                    Ok(_) => r matches Ok(x) && x@ == p,
                    Err(e) => r == Err::<String, AppError>(e),
                },
        },
    }
}

impl<S: PlistDocumentStore> PlistService<S> {
    pub fn with_home_dir(store: Arc<S>, home_dir: Option<String>) -> (r: Self)
        ensures
            r.home() == home_dir,
    {
        PlistService { store, home_dir }
    }

    /// The home directory that user agents are created under.
    pub closed spec fn home(&self) -> Option<String> {
        self.home_dir
    }

    pub fn load_document(&self, path: &str) -> (r: AppResult<StandardPlistDocument>)
        ensures
            call_ensures(S::load_standard_document, (&*self.store(), path), r),
    {
        self.store.load_standard_document(path)
    }

    /// Where documents are loaded from and saved to.
    pub closed spec fn store(&self) -> Arc<S> {
        self.store
    }

    /// Saves a document over an existing plist: refused for an invalid document or a path
    /// outside its scope's directory, else whatever the store answers.
    pub fn save_existing(&self, path: &str, scope: &JobScope, document: &StandardPlistDocument) -> (r:
        AppResult<()>)
        ensures
            saved_over(&*self.store(), path, *scope, document, r),
    {
        self.validate_document(document)?;
        self.ensure_path_is_allowed(path, scope)?;
        self.store.save_standard_document(path, document)
    }

    /// Saves a document as a new plist of `scope` and returns its path.
    pub fn create_new(&self, scope: JobScope, document: &StandardPlistDocument) -> (r: AppResult<
        String,
    >)
        ensures
            created_as_new(&*self.store(), self.home(), scope, document, r),
    {
        self.validate_document(document)?;
        let path = self.new_job_path(&scope, document.label.as_str())?;
        let q = path.as_str();
        let saved = self.store.save_standard_document(q, document);
        assert(call_ensures(S::save_standard_document, (&*self.store(), q, document), saved));
        match saved {
            Ok(_) => Ok(path),
            Err(e) => Err(e),
        }
    }

    /// The XML of a valid document; an invalid one is refused.
    pub fn xml_preview(&self, document: &StandardPlistDocument) -> (r: AppResult<String>)
        ensures
            document_refusal(*document) matches Some(m) ==> (r matches Err(AppError::Validation(
                e,
            )) && e@ == m),
    {
        self.validate_document(document)?;
        self.store.to_xml(document)
    }

    /// The program arguments of the editor's line: its whitespace-separated words.
    pub fn parse_program_arguments(&self, raw: &str) -> (r: Vec<String>)
        ensures
            str_views(r@) == words(raw@),
    {
        let w = words_chars(&to_chars(raw));
        strings_of(&w)
    }

    /// The variables of the editor's comma-separated `KEY=VALUE` list.
    pub fn parse_env_pairs(&self, raw: &str) -> (r: AppResult<StringMap>)
        ensures
            r matches Ok(m) ==> env_pairs_of(raw@) == Ok::<
                Seq<(Seq<char>, Seq<char>)>,
                Seq<char>,
            >(m@) && m.well_formed(),
            r matches Err(e) ==> (e matches AppError::Validation(msg) && env_pairs_of(raw@)
                == Err::<Seq<(Seq<char>, Seq<char>)>, Seq<char>>(msg@)),
    {
        let parts = split_chars(&to_chars(raw), ',');
        let tokens = trimmed_nonempty_chars(&parts);
        let ghost all = views(tokens@);
        let mut envs = StringMap::new();
        let mut i: usize = 0;
        assert(all.skip(0) =~= all);
        while i < tokens.len()
            invariant
                i <= tokens.len(),
                all == views(tokens@),
                all == trimmed_nonempty(split_on(raw@, ',')),
                envs.well_formed(),
                pairs_into(all, Seq::empty()) == pairs_into(all.skip(i as int), envs@),
            decreases tokens.len() - i,
        {
            let ghost rest = all.skip(i as int);
            assert(rest[0] == tokens@[i as int]@);
            assert(rest.drop_first() =~= all.skip(i + 1));
            match split_once_chars(&tokens[i], '=') {
                None => {
                    let mut msg: Vec<char> = Vec::new();
                    append_str(&mut msg, "Environment variable format invalid: `");
                    append_chars(&mut msg, &tokens[i]);
                    append_str(&mut msg, "` (expected KEY=VALUE)");
                    return Err(AppError::Validation(from_chars(msg.as_slice())));
                },
                Some(kv) => {
                    let key = trim_chars(&kv.0);
                    if key.len() == 0 {
                        return Err(validation("Environment variable key cannot be empty"));
                    }
                    let value = trim_chars(&kv.1);
                    envs.insert(from_chars(key.as_slice()), from_chars(value.as_slice()));
                },
            }
            i = i + 1;
        }
        assert(all.skip(tokens.len() as int) =~= Seq::<Seq<char>>::empty());
        Ok(envs)
    }

    /// The variables as the editor's comma-separated `KEY=VALUE` list.
    pub fn format_env_pairs(&self, envs: &StringMap) -> (r: String)
        ensures
            r@ == env_pairs_text(envs@),
    {
        let mut texts: Vec<String> = Vec::new();
        let mut i: usize = 0;
        while i < envs.len()
            invariant
                i <= envs@.len(),
                str_views(texts@) == pair_texts(envs@).take(i as int),
            decreases envs@.len() - i,
        {
            let mut t: Vec<char> = Vec::new();
            append_str(&mut t, envs.key_at(i).as_str());
            append_str(&mut t, "=");
            append_str(&mut t, envs.value_at(i).as_str());
            let ghost before = texts@;
            let item = from_chars(t.as_slice());
            texts.push(item);
            proof {
                crate::text::lemma_str_views_push(before, item);
            }
            assert(pair_texts(envs@).take(i + 1) =~= pair_texts(envs@).take(i as int).push(
                t@,
            ));
            i = i + 1;
        }
        assert(pair_texts(envs@).take(envs@.len() as int) =~= pair_texts(envs@));
        crate::text::join_strings(&texts, ", ")
    }

    /// The extra string keys of the editor's expert list, in the same `KEY=VALUE` form.
    pub fn parse_extra_pairs(&self, raw: &str) -> (r: AppResult<StringMap>)
        ensures
            r matches Ok(m) ==> env_pairs_of(raw@) == Ok::<
                Seq<(Seq<char>, Seq<char>)>,
                Seq<char>,
            >(m@) && m.well_formed(),
            r matches Err(e) ==> (e matches AppError::Validation(msg) && env_pairs_of(raw@)
                == Err::<Seq<(Seq<char>, Seq<char>)>, Seq<char>>(msg@)),
    {
        self.parse_env_pairs(raw)
    }

    /// The extra string keys as the editor's expert list.
    pub fn format_extra_pairs(&self, entries: &StringMap) -> (r: String)
        ensures
            r@ == env_pairs_text(entries@),
    {
        self.format_env_pairs(entries)
    }

    pub fn validate_document(&self, document: &StandardPlistDocument) -> (r: AppResult<()>)
        ensures
            document_refusal(*document) is None ==> r is Ok,
            document_refusal(*document) matches Some(m) ==> (r matches Err(AppError::Validation(
                e,
            )) && e@ == m),
    {
        if trim_chars(&to_chars(document.label.as_str())).len() == 0 {
            return Err(validation("Label is required before saving plist"));
        }
        if trim_chars(&to_chars(document.program.as_str())).len() == 0 {
            return Err(validation("Program is required before saving plist"));
        }
        Ok(())
    }

    pub fn ensure_path_is_allowed(&self, path: &str, scope: &JobScope) -> (r: AppResult<()>)
        ensures
            contains(path@, scope_directory_marker(*scope)) ==> r is Ok,
            !contains(path@, scope_directory_marker(*scope)) ==> (r matches Err(
                AppError::Validation(e),
            ) && e@ == outside_scope_message(path@)),
    {
        let p = to_chars(path);
        let allowed = match scope {
            JobScope::UserAgent => contains_str(&p, "/Library/LaunchAgents/"),
            JobScope::GlobalAgent => contains_str(&p, "/Library/LaunchAgents/"),
            JobScope::SystemDaemon => contains_str(&p, "/Library/LaunchDaemons/"),
        };
        if !allowed {
            let mut msg: Vec<char> = Vec::new();
            append_str(&mut msg, "Path is outside allowed scope directories: ");
            append_chars(&mut msg, &p);
            return Err(AppError::Validation(from_chars(msg.as_slice())));
        }
        Ok(())
    }

    /// Where a new job's plist goes. For a label that does not start with `/` (and, for a
    /// user agent, a home directory that is not empty and does not end in `/`), the path lies
    /// in the scope's directory, the one that saving checks, and ends with `/`, the label
    /// and `.plist`.
    pub fn new_job_path(&self, scope: &JobScope, label: &str) -> (r: AppResult<String>)
        ensures
            match new_job_path_for(*scope, opt_string_view(self.home()), label@) {
                Ok(p) => r matches Ok(q) && q@ == p,
                Err(m) => r matches Err(AppError::Validation(e)) && e@ == m,
            },
            r matches Ok(q) ==> (!(label@.len() > 0 && label@[0] == '/') && (*scope
                == JobScope::UserAgent ==> plain_home(self.home())) ==> contains(
                q@,
                scope_directory_marker(*scope),
            ) && crate::text::ends_with(q@, "/"@ + label@ + ".plist"@)),
    {
        let mut f: Vec<char> = Vec::new();
        append_str(&mut f, label);
        append_str(&mut f, ".plist");
        let file = from_chars(f.as_slice());
        proof {
            reveal_strlit(".plist");
        }
        proof {
            reveal_strlit("/");
        }
        assert(file@.len() > 0);
        assert(!(label@.len() > 0 && label@[0] == '/') ==> file@[0] != '/') by {
            if label@.len() == 0 {
                assert(file@[0] == ".plist"@[0]);
            } else {
                assert(file@[0] == label@[0]);
            }
        }
        let ghost tail = "/"@ + label@ + ".plist"@;
        assert(tail =~= "/"@ + file@);
        match scope {
            JobScope::UserAgent => match &self.home_dir {
                Some(h) => {
                    proof {
                        reveal_strlit("Library/LaunchAgents");
                    }
                    proof {
                        reveal_strlit("/Library/LaunchAgents/");
                    }
                    let dir = join(h.as_str(), "Library/LaunchAgents");
                    let r = join(dir.as_str(), file.as_str());
                    proof {
                        if !(label@.len() > 0 && label@[0] == '/') && h@.len() > 0 && h@.last() != '/' {
                            let lib = "Library/LaunchAgents"@;
                            assert(dir@ == h@ + "/"@ + lib);
                            assert(dir@.last() == lib.last());
                            assert(r@ == dir@ + "/"@ + file@);
                            let m = "/Library/LaunchAgents/"@;
                            let i = h@.len() as int;
                            assert(r@.subrange(i, i + m.len()) =~= m);
                            assert(crate::text::occurs_at(r@, m, i));
                            assert(r@.subrange(r@.len() - tail.len(), r@.len() as int) =~= tail);
                        }
                    }
                    Ok(r)
                },
                None => Err(validation("HOME is not available for creating user agent plist")),
            },
            JobScope::GlobalAgent => {
                let base = "/Library/LaunchAgents";
                proof {
                    reveal_strlit("/Library/LaunchAgents");
                }
                proof {
                    reveal_strlit("/Library/LaunchAgents/");
                }
                let r = join(base, file.as_str());
                proof {
                    if !(label@.len() > 0 && label@[0] == '/') {
                        assert(r@ == base@ + "/"@ + file@);
                        let m = "/Library/LaunchAgents/"@;
                        assert(r@.subrange(0, m.len() as int) =~= m);
                        assert(crate::text::occurs_at(r@, m, 0));
                        assert(r@.subrange(r@.len() - tail.len(), r@.len() as int) =~= tail);
                    }
                }
                Ok(r)
            },
            JobScope::SystemDaemon => {
                let base = "/Library/LaunchDaemons";
                proof {
                    reveal_strlit("/Library/LaunchDaemons");
                }
                proof {
                    reveal_strlit("/Library/LaunchDaemons/");
                }
                let r = join(base, file.as_str());
                proof {
                    if !(label@.len() > 0 && label@[0] == '/') {
                        assert(r@ == base@ + "/"@ + file@);
                        let m = "/Library/LaunchDaemons/"@;
                        assert(r@.subrange(0, m.len() as int) =~= m);
                        assert(crate::text::occurs_at(r@, m, 0));
                        assert(r@.subrange(r@.len() - tail.len(), r@.len() as int) =~= tail);
                    }
                }
                Ok(r)
            },
        }
    }
}

/// A home directory that is known, not empty and does not end in `/`.
pub open spec fn plain_home(home: Option<String>) -> bool {
    match home {
        Some(h) => h@.len() > 0 && h@.last() != '/',
        None => false,
    }
}

/// The characters of an optional string.
pub open spec fn opt_string_view(o: Option<String>) -> Option<Seq<char>> {
    match o {
        Some(s) => Some(s@),
        None => None,
    }
}

} // verus!
