//! Directional file synchronisation: the options of a sync and the argument
//! list that the external sync tool (rsync) is run with.
use crate::path;
use crate::text;
use vstd::prelude::*;

verus! {

/// The options of one synchronisation.
#[derive(Debug)]
pub struct SyncOptions {
    pub quiet: bool,
    pub verbose: bool,
    /// Delete files at the destination that the source does not have.
    pub delete: bool,
    /// Patterns of files left out.
    pub excludes: Vec<String>,
    /// Categories of the tool's `--info` output.
    pub infos: Vec<String>,
    /// Copy what a source directory holds rather than the directory itself.
    pub copy_contents: bool,
    pub progress: bool,
    /// Copy what symbolic links point to rather than the links.
    pub resolve_symlinks: bool,
}

/// Where a synchronisation copies from and to. The remote side is reached
/// through the control socket of an established secure-shell session.
pub enum SyncPayload {
    LocalToRemote { control_path: String, sources: Vec<String>, destination: String },
    RemoteToLocal { control_path: String, source: String, destination: String },
    LocalToLocal { sources: Vec<String>, destination: String },
}

/// `o` sets exactly the given flags among copying contents, deleting and
/// resolving links, and nothing else: no other flag, pattern or category.
pub open spec fn options_are(o: SyncOptions, copy_contents: bool, delete: bool, resolve_symlinks: bool) -> bool {
    &&& o.copy_contents == copy_contents
    &&& o.delete == delete
    &&& o.resolve_symlinks == resolve_symlinks
    &&& !o.quiet
    &&& !o.verbose
    &&& !o.progress
    &&& o.excludes@.len() == 0
    &&& o.infos@.len() == 0
}

pub open spec fn flag_if(b: bool, flag: Seq<char>) -> Seq<Seq<char>> {
    if b {
        seq![flag]
    } else {
        Seq::empty()
    }
}

/// The flags that the options stand for. Change detection always goes by
/// checksum.
pub open spec fn flag_arguments(o: SyncOptions) -> Seq<Seq<char>> {
    seq!["--archive"@, "--checksum"@] + flag_if(o.quiet, "--quiet"@) + flag_if(
        o.verbose,
        "--verbose"@,
    ) + flag_if(o.delete, "--delete"@) + flag_if(o.progress, "--progress"@) + flag_if(
        o.resolve_symlinks,
        "--copy-links"@,
    )
}

/// The output categories, as one argument, where there are any.
pub open spec fn info_arguments(o: SyncOptions) -> Seq<Seq<char>> {
    if o.infos@.len() > 0 {
        seq!["--info="@ + text::join_spec(o.infos.deep_view(), ","@)]
    } else {
        Seq::empty()
    }
}

/// One argument per exclude pattern.
pub open spec fn exclude_arguments(o: SyncOptions) -> Seq<Seq<char>> {
    o.excludes.deep_view().map_values(|e: Seq<char>| "--exclude="@ + e)
}

pub open spec fn option_arguments(o: SyncOptions) -> Seq<Seq<char>> {
    flag_arguments(o) + info_arguments(o) + exclude_arguments(o)
}

/// A source as handed to the tool: with a final separator when the contents
/// are copied, without any when the directory itself is.
pub open spec fn source_argument(o: SyncOptions, s: Seq<char>) -> Seq<char> {
    if o.copy_contents {
        s.push('/')
    } else {
        path::trim_trailing_slashes_spec(s)
    }
}

pub open spec fn source_arguments(o: SyncOptions, sources: Seq<Seq<char>>) -> Seq<Seq<char>> {
    sources.map_values(|s: Seq<char>| source_argument(o, s))
}

pub open spec fn remote_shell_argument(control_path: Seq<char>) -> Seq<char> {
    "--rsh=ssh -S "@ + control_path
}

/// The arguments that name the two sides; the remote side is written with the
/// placeholder host `none`, since the shell goes through the control socket.
pub open spec fn payload_arguments(p: SyncPayload, o: SyncOptions) -> Seq<Seq<char>> {
    match p {
        SyncPayload::LocalToRemote { control_path, sources, destination } => seq![
            remote_shell_argument(control_path@),
        ] + source_arguments(o, sources.deep_view()) + seq!["none:"@ + destination@],
        SyncPayload::RemoteToLocal { control_path, source, destination } => seq![
            remote_shell_argument(control_path@),
            "none:"@ + source_argument(o, source@),
            destination@,
        ],
        SyncPayload::LocalToLocal { sources, destination } => source_arguments(
            o,
            sources.deep_view(),
        ) + seq![destination@],
    }
}

pub open spec fn sync_arguments_spec(p: SyncPayload, o: SyncOptions) -> Seq<Seq<char>> {
    option_arguments(o) + payload_arguments(p, o)
}

fn push_flag_if(args: &mut Vec<String>, b: bool, flag: &str)
    ensures
        final(args).deep_view() == old(args).deep_view() + flag_if(b, flag@),
{
    if b {
        text::push_string(args, flag.to_owned());
        assert(args.deep_view() =~= old(args).deep_view() + flag_if(b, flag@));
    } else {
        assert(args.deep_view() =~= old(args).deep_view() + flag_if(b, flag@));
    }
}

impl SyncOptions {
    /// No flag set, no pattern, no category.
    pub fn default() -> (r: SyncOptions)
        ensures
            !r.quiet,
            !r.verbose,
            !r.delete,
            r.excludes@.len() == 0,
            r.infos@.len() == 0,
            !r.copy_contents,
            !r.progress,
            !r.resolve_symlinks,
    {
        SyncOptions {
            quiet: false,
            verbose: false,
            delete: false,
            excludes: Vec::new(),
            infos: Vec::new(),
            copy_contents: false,
            progress: false,
            resolve_symlinks: false,
        }
    }

    pub fn quiet(self) -> (r: SyncOptions)
        ensures
            r == (SyncOptions { quiet: true, ..self }),
    {
        SyncOptions { quiet: true, ..self }
    }

    pub fn verbose(self) -> (r: SyncOptions)
        ensures
            r == (SyncOptions { verbose: true, ..self }),
    {
        SyncOptions { verbose: true, ..self }
    }

    pub fn delete(self) -> (r: SyncOptions)
        ensures
            r == (SyncOptions { delete: true, ..self }),
    {
        SyncOptions { delete: true, ..self }
    }

    pub fn copy_contents(self) -> (r: SyncOptions)
        ensures
            r == (SyncOptions { copy_contents: true, ..self }),
    {
        SyncOptions { copy_contents: true, ..self }
    }

    pub fn progress(self) -> (r: SyncOptions)
        ensures
            r == (SyncOptions { progress: true, ..self }),
    {
        SyncOptions { progress: true, ..self }
    }

    pub fn resolve_symlinks(self) -> (r: SyncOptions)
        ensures
            r == (SyncOptions { resolve_symlinks: true, ..self }),
    {
        SyncOptions { resolve_symlinks: true, ..self }
    }

    /// The options with `excludes` added after the patterns already there.
    pub fn exclude(self, excludes: &Vec<String>) -> (r: SyncOptions)
        ensures
            r.excludes.deep_view() == self.excludes.deep_view() + excludes.deep_view(),
            r.quiet == self.quiet,
            r.verbose == self.verbose,
            r.delete == self.delete,
            r.infos.deep_view() == self.infos.deep_view(),
            r.copy_contents == self.copy_contents,
            r.progress == self.progress,
            r.resolve_symlinks == self.resolve_symlinks,
    {
        let mut o = self;
        let added = text::copy_strings(excludes);
        let mut i: usize = 0;
        while i < added.len()
            invariant
                i <= added.len(),
                added.deep_view() == excludes.deep_view(),
                o.excludes.deep_view() == self.excludes.deep_view() + added.deep_view().subrange(
                    0,
                    i as int,
                ),
                o.infos == self.infos,
                o.quiet == self.quiet,
                o.verbose == self.verbose,
                o.delete == self.delete,
                o.copy_contents == self.copy_contents,
                o.progress == self.progress,
                o.resolve_symlinks == self.resolve_symlinks,
            decreases added.len() - i,
        {
            text::push_string(&mut o.excludes, added[i].clone());
            assert(added.deep_view().subrange(0, i + 1) =~= added.deep_view().subrange(
                0,
                i as int,
            ).push(added[i as int]@));
            i = i + 1;
        }
        assert(added.deep_view().subrange(0, added.len() as int) =~= added.deep_view());
        o
    }

    /// The options with the categories `infos` added after those already there.
    pub fn info(self, infos: &Vec<&str>) -> (r: SyncOptions)
        ensures
            r.infos.deep_view() == self.infos.deep_view() + infos@.map_values(|s: &str| s@),
            r.quiet == self.quiet,
            r.verbose == self.verbose,
            r.delete == self.delete,
            r.excludes.deep_view() == self.excludes.deep_view(),
            r.copy_contents == self.copy_contents,
            r.progress == self.progress,
            r.resolve_symlinks == self.resolve_symlinks,
    {
        let mut o = self;
        let mut i: usize = 0;
        while i < infos.len()
            invariant
                i <= infos.len(),
                o.infos.deep_view() == self.infos.deep_view() + infos@.subrange(
                    0,
                    i as int,
                ).map_values(|s: &str| s@),
                o.excludes == self.excludes,
                o.quiet == self.quiet,
                o.verbose == self.verbose,
                o.delete == self.delete,
                o.copy_contents == self.copy_contents,
                o.progress == self.progress,
                o.resolve_symlinks == self.resolve_symlinks,
            decreases infos.len() - i,
        {
            text::push_string(&mut o.infos, infos[i].to_owned());
            assert(infos@.subrange(0, i + 1).map_values(|s: &str| s@) =~= infos@.subrange(
                0,
                i as int,
            ).map_values(|s: &str| s@).push(infos@[i as int]@));
            i = i + 1;
        }
        assert(infos@.subrange(0, infos.len() as int) =~= infos@);
        o
    }
}

fn source_arg(o: &SyncOptions, s: &str) -> (r: String)
    ensures
        r@ == source_argument(*o, s@),
{
    if o.copy_contents {
        path::ensure_trailing_slash(s)
    } else {
        path::ensure_trimmed_trailing_slash(s)
    }
}

fn push_sources(args: &mut Vec<String>, o: &SyncOptions, sources: &Vec<String>)
    ensures
        final(args).deep_view() == old(args).deep_view() + source_arguments(
            *o,
            sources.deep_view(),
        ),
{
    let mut i: usize = 0;
    while i < sources.len()
        invariant
            i <= sources.len(),
            args.deep_view() == old(args).deep_view() + source_arguments(
                *o,
                sources.deep_view().subrange(0, i as int),
            ),
        decreases sources.len() - i,
    {
        let a = source_arg(o, sources[i].as_str());
        text::push_string(args, a);
        assert(source_arguments(*o, sources.deep_view().subrange(0, i + 1)) =~= source_arguments(
            *o,
            sources.deep_view().subrange(0, i as int),
        ).push(source_argument(*o, sources[i as int]@)));
        i = i + 1;
    }
    assert(sources.deep_view().subrange(0, sources.len() as int) =~= sources.deep_view());
}

fn push_flag_arguments(args: &mut Vec<String>, options: &SyncOptions)
    ensures
        final(args).deep_view() == old(args).deep_view() + flag_arguments(*options),
{
    text::push_string(args, "--archive".to_owned());
    text::push_string(args, "--checksum".to_owned());
    push_flag_if(args, options.quiet, "--quiet");
    push_flag_if(args, options.verbose, "--verbose");
    push_flag_if(args, options.delete, "--delete");
    push_flag_if(args, options.progress, "--progress");
    push_flag_if(args, options.resolve_symlinks, "--copy-links");
    assert(args.deep_view() =~= old(args).deep_view() + flag_arguments(*options));
}

fn push_exclude_arguments(args: &mut Vec<String>, options: &SyncOptions)
    ensures
        final(args).deep_view() == old(args).deep_view() + exclude_arguments(*options),
{
    let mut i: usize = 0;
    while i < options.excludes.len()
        invariant
            i <= options.excludes.len(),
            args.deep_view() == old(args).deep_view() + options.excludes.deep_view().subrange(
                0,
                i as int,
            ).map_values(|e: Seq<char>| "--exclude="@ + e),
        decreases options.excludes.len() - i,
    {
        text::push_string(args, text::concat("--exclude=", options.excludes[i].as_str()));
        assert(options.excludes.deep_view().subrange(0, i + 1).map_values(
            |e: Seq<char>| "--exclude="@ + e,
        ) =~= options.excludes.deep_view().subrange(0, i as int).map_values(
            |e: Seq<char>| "--exclude="@ + e,
        ).push("--exclude="@ + options.excludes[i as int]@));
        i = i + 1;
    }
    assert(options.excludes.deep_view().subrange(0, options.excludes.len() as int)
        =~= options.excludes.deep_view());
}

fn push_option_arguments(args: &mut Vec<String>, options: &SyncOptions)
    ensures
        final(args).deep_view() == old(args).deep_view() + option_arguments(*options),
{
    push_flag_arguments(args, options);
    let ghost flags = args.deep_view();
    if options.infos.len() > 0 {
        let joined = text::join(&options.infos, ",");
        text::push_string(args, text::concat("--info=", joined.as_str()));
    }
    assert(args.deep_view() =~= flags + info_arguments(*options));
    push_exclude_arguments(args, options);
    assert(args.deep_view() =~= old(args).deep_view() + option_arguments(*options));
}

fn push_payload_arguments(args: &mut Vec<String>, payload: &SyncPayload, options: &SyncOptions)
    ensures
        final(args).deep_view() == old(args).deep_view() + payload_arguments(*payload, *options),
{
    match payload {
        SyncPayload::LocalToRemote { control_path, sources, destination } => {
            text::push_string(args, text::concat("--rsh=ssh -S ", control_path.as_str()));
            push_sources(args, options, sources);
            text::push_string(args, text::concat("none:", destination.as_str()));
        },
        SyncPayload::RemoteToLocal { control_path, source, destination } => {
            text::push_string(args, text::concat("--rsh=ssh -S ", control_path.as_str()));
            let s = source_arg(options, source.as_str());
            text::push_string(args, text::concat("none:", s.as_str()));
            text::push_string(args, destination.clone());
        },
        SyncPayload::LocalToLocal { sources, destination } => {
            push_sources(args, options, sources);
            text::push_string(args, destination.clone());
        },
    }
    assert(args.deep_view() =~= old(args).deep_view() + payload_arguments(*payload, *options));
}

/// The argument list of the sync tool for copying as `payload` says, with
/// `options`: first the flags, then the sides.
pub fn sync_arguments(payload: &SyncPayload, options: &SyncOptions) -> (r: Vec<String>)
    ensures
        r.deep_view() == sync_arguments_spec(*payload, *options),
{
    let mut args: Vec<String> = Vec::new();
    push_option_arguments(&mut args, options);
    push_payload_arguments(&mut args, payload, options);
    assert(args.deep_view() =~= sync_arguments_spec(*payload, *options));
    args
}

} // verus!
