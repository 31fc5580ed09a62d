//! The command line: its tokens are scanned from left to right into the
//! options of one run.

use vstd::prelude::*;
use crate::error::Flag;
use crate::error::UsageError;
use crate::text::trim;
use crate::text::trimmed;

verus! {

/// The options of one run, as plain values.
pub struct ArgsView {
    /// Change the access time.
    pub access: bool,
    /// Create nothing: leave a target that exists as it is, and fail on one
    /// that is missing.
    pub no_create: bool,
    /// Change the modification time.
    pub modify: bool,
    /// The name of the file whose times are copied, if there is one.
    pub source: Option<Seq<char>>,
    /// The name of the file to touch.
    pub file: Seq<char>,
}

/// The options of one run.
#[derive(Debug, PartialEq, Eq)]
pub struct Args {
    /// Change the access time (`-a`).
    pub access: bool,
    /// Create nothing (`-c`): leave a target that exists as it is, and fail
    /// on one that is missing.
    pub no_create: bool,
    /// Change the modification time (`-m`).
    pub modify: bool,
    /// The file whose times are copied (`-r`).
    pub source: Option<String>,
    /// The file to touch.
    pub file: String,
}

impl View for Args {
    type V = ArgsView;

    open spec fn view(&self) -> ArgsView {
        ArgsView {
            access: self.access,
            no_create: self.no_create,
            modify: self.modify,
            source: match self.source {
                Some(s) => Some(s@),
                None => None,
            },
            file: self.file@,
        }
    }
}

/// Options or an error, as the plain values that they stand for.
pub open spec fn viewed(r: Result<Args, UsageError>) -> Result<ArgsView, UsageError> {
    match r {
        Ok(args) => Ok(args@),
        Err(e) => Err(e),
    }
}

/// Whether a token is a cluster of flags: it starts with a dash.
pub open spec fn is_cluster(token: Seq<char>) -> bool {
    token.len() > 0 && token[0] == '-'
}

/// What a scan of the command line has met so far.
pub struct Scan {
    /// `-a` was met.
    pub access: bool,
    /// `-c` was met.
    pub no_create: bool,
    /// `-m` was met.
    pub modify: bool,
    /// `-r` was met.
    pub reference: bool,
    /// The value taken for the reference file.
    pub source: Option<Seq<char>>,
    /// The value taken for the target file.
    pub file: Option<Seq<char>>,
}

impl Scan {
    /// The scan before the first token.
    pub open spec fn start() -> Scan {
        Scan {
            access: false,
            no_create: false,
            modify: false,
            reference: false,
            source: None,
            file: None,
        }
    }

    /// Whether the flag was met.
    pub open spec fn has(self, flag: Flag) -> bool {
        match flag {
            Flag::Access => self.access,
            Flag::NoCreate => self.no_create,
            Flag::Modify => self.modify,
            Flag::Reference => self.reference,
        }
    }

    /// The scan once the flag is met.
    pub open spec fn with(self, flag: Flag) -> Scan {
        match flag {
            Flag::Access => Scan { access: true, ..self },
            Flag::NoCreate => Scan { no_create: true, ..self },
            Flag::Modify => Scan { modify: true, ..self },
            Flag::Reference => Scan { reference: true, ..self },
        }
    }

    /// One character of a cluster. A letter of a flag sets the flag, and is
    /// refused where the flag was met before. Any other character is passed
    /// over.
    pub open spec fn letter(self, c: char) -> Result<Scan, UsageError> {
        match Flag::of_letter(c) {
            None => Ok(self),
            Some(flag) => if self.has(flag) {
                Err(UsageError::DuplicateFlag(flag))
            } else {
                Ok(self.with(flag))
            },
        }
    }

    /// The characters of a cluster, from left to right, up to the first that
    /// is refused.
    pub open spec fn letters(self, chars: Seq<char>) -> Result<Scan, UsageError>
        decreases chars.len(),
    {
        if chars.len() == 0 {
            Ok(self)
        } else {
            match self.letter(chars.first()) {
                Err(e) => Err(e),
                Ok(next) => next.letters(chars.drop_first()),
            }
        }
    }

    /// A positional value. The first one met after `-r` is the reference
    /// file; otherwise the first one met is the target file; any other is
    /// dropped.
    pub open spec fn positional(self, value: Seq<char>) -> Scan {
        if self.reference && self.source is None {
            Scan { source: Some(value), ..self }
        } else if self.file is None {
            Scan { file: Some(value), ..self }
        } else {
            self
        }
    }

    /// One token: a cluster of flags behind its dash, or a positional value,
    /// which is trimmed.
    pub open spec fn token(self, token: Seq<char>) -> Result<Scan, UsageError> {
        if is_cluster(token) {
            self.letters(token.drop_first())
        } else {
            Ok(self.positional(trimmed(token)))
        }
    }

    /// The tokens from left to right, up to the first that is refused.
    pub open spec fn tokens(self, tokens: Seq<Seq<char>>) -> Result<Scan, UsageError>
        decreases tokens.len(),
    {
        if tokens.len() == 0 {
            Ok(self)
        } else {
            match self.token(tokens.first()) {
                Err(e) => Err(e),
                Ok(next) => next.tokens(tokens.drop_first()),
            }
        }
    }

    /// The options that the scan amounts to once the tokens are used up: a
    /// target file must have been named, and its name must not be empty.
    pub open spec fn finish(self) -> Result<ArgsView, UsageError> {
        match self.file {
            Some(file) if file.len() > 0 => Ok(
                ArgsView {
                    access: self.access,
                    no_create: self.no_create,
                    modify: self.modify,
                    source: self.source,
                    file,
                },
            ),
            _ => Err(UsageError::MissingFilename),
        }
    }
}

/// What a command line means: the options it asks for, or the reason for
/// which it is refused. `tokens` are the arguments behind the program's name.
pub open spec fn parsed(tokens: Seq<Seq<char>>) -> Result<ArgsView, UsageError> {
    match Scan::start().tokens(tokens) {
        Err(e) => Err(e),
        Ok(scan) => scan.finish(),
    }
}

/// Whether place `j` of token `i` holds the letter of `flag`, in a cluster
/// and behind its dash.
pub open spec fn flag_at(tokens: Seq<Seq<char>>, flag: Flag, i: int, j: int) -> bool {
    &&& 0 <= i < tokens.len()
    &&& is_cluster(tokens[i])
    &&& 1 <= j < tokens[i].len()
    &&& Flag::of_letter(tokens[i][j]) == Some(flag)
}

/// Whether the flag is given somewhere on the command line.
pub open spec fn given(tokens: Seq<Seq<char>>, flag: Flag) -> bool {
    exists|i: int, j: int| flag_at(tokens, flag, i, j)
}

/// Whether the flag is given at two places of the command line.
pub open spec fn given_twice(tokens: Seq<Seq<char>>, flag: Flag) -> bool {
    exists|i1: int, j1: int, i2: int, j2: int|
        #![trigger flag_at(tokens, flag, i1, j1), flag_at(tokens, flag, i2, j2)]
        flag_at(tokens, flag, i1, j1) && flag_at(tokens, flag, i2, j2) && (i1 != i2 || j1 != j2)
}

/// The positional values among the tokens, trimmed, in their order.
pub open spec fn names(tokens: Seq<Seq<char>>) -> Seq<Seq<char>>
    decreases tokens.len(),
{
    if tokens.len() == 0 {
        Seq::empty()
    } else if is_cluster(tokens.first()) {
        names(tokens.drop_first())
    } else {
        seq![trimmed(tokens.first())] + names(tokens.drop_first())
    }
}

/// The running state of [`Args::parse`].
struct Scanner {
    access: bool,
    no_create: bool,
    modify: bool,
    reference: bool,
    source: Option<String>,
    file: Option<String>,
}

impl View for Scanner {
    type V = Scan;

    closed spec fn view(&self) -> Scan {
        Scan {
            access: self.access,
            no_create: self.no_create,
            modify: self.modify,
            reference: self.reference,
            source: match self.source {
                Some(s) => Some(s@),
                None => None,
            },
            file: match self.file {
                Some(s) => Some(s@),
                None => None,
            },
        }
    }
}

/// A scanner or an error, as the plain values that they stand for.
spec fn scanned(r: Result<Scanner, UsageError>) -> Result<Scan, UsageError> {
    match r {
        Ok(scanner) => Ok(scanner@),
        Err(e) => Err(e),
    }
}

/// Decides [`is_cluster`].
fn starts_cluster(token: &str) -> (b: bool)
    ensures
        b == is_cluster(token@),
{
    let mut chars = token.chars();
    match chars.next() {
        Some(c) => c == '-',
        None => false,
    }
}

impl Scanner {
    fn new() -> (scanner: Scanner)
        ensures
            scanner@ == Scan::start(),
    {
        Scanner {
            access: false,
            no_create: false,
            modify: false,
            reference: false,
            source: None,
            file: None,
        }
    }

    fn letter(self, c: char) -> (r: Result<Scanner, UsageError>)
        ensures
            scanned(r) == self@.letter(c),
    {
        match Flag::from_letter(c) {
            None => Ok(self),
            Some(Flag::Access) => if self.access {
                Err(UsageError::DuplicateFlag(Flag::Access))
            } else {
                Ok(Scanner { access: true, ..self })
            },
            Some(Flag::NoCreate) => if self.no_create {
                Err(UsageError::DuplicateFlag(Flag::NoCreate))
            } else {
                Ok(Scanner { no_create: true, ..self })
            },
            Some(Flag::Modify) => if self.modify {
                Err(UsageError::DuplicateFlag(Flag::Modify))
            } else {
                Ok(Scanner { modify: true, ..self })
            },
            Some(Flag::Reference) => if self.reference {
                Err(UsageError::DuplicateFlag(Flag::Reference))
            } else {
                Ok(Scanner { reference: true, ..self })
            },
        }
    }

    fn cluster(self, token: &str) -> (r: Result<Scanner, UsageError>)
        requires
            is_cluster(token@),
        ensures
            scanned(r) == self@.letters(token@.drop_first()),
    {
        let mut scanner = self;
        let mut dash = true;
        assert(token@.skip(1) =~= token@.drop_first());
        for c in it: token.chars()
            invariant
                it.seq() == token@,
                is_cluster(token@),
                dash == (it.index() == 0),
                self@.letters(token@.drop_first()) == scanner@.letters(
                    token@.skip(if dash { 1 } else { it.index() }),
                ),
        {
            if dash {
                dash = false;
            } else {
                proof {
                    let rest = token@.skip(it.index());
                    assert(rest.first() == c);
                    assert(rest.drop_first() =~= token@.skip(it.index() + 1));
                }
                match scanner.letter(c) {
                    Err(e) => {
                        return Err(e);
                    },
                    Ok(next) => {
                        scanner = next;
                    },
                }
            }
        }
        Ok(scanner)
    }

    fn positional(self, value: String) -> (scanner: Scanner)
        ensures
            scanner@ == self@.positional(value@),
    {
        if self.reference && self.source.is_none() {
            Scanner { source: Some(value), ..self }
        } else if self.file.is_none() {
            Scanner { file: Some(value), ..self }
        } else {
            self
        }
    }

    fn token(self, token: &str) -> (r: Result<Scanner, UsageError>)
        ensures
            scanned(r) == self@.token(token@),
    {
        if starts_cluster(token) {
            self.cluster(token)
        } else {
            Ok(self.positional(trim(token)))
        }
    }

    fn finish(self) -> (r: Result<Args, UsageError>)
        ensures
            viewed(r) == self@.finish(),
    {
        match self.file {
            Some(file) => {
                if file.as_str().is_empty() {
                    Err(UsageError::MissingFilename)
                } else {
                    Ok(
                        Args {
                            access: self.access,
                            no_create: self.no_create,
                            modify: self.modify,
                            source: self.source,
                            file,
                        },
                    )
                }
            },
            None => Err(UsageError::MissingFilename),
        }
    }
}

impl Args {
    /// Reads the command line. `args` are the arguments behind the program's
    /// name, in their order. The result is what [`parsed`] says of them.
    pub fn parse(args: &[String]) -> (r: Result<Args, UsageError>)
        ensures
            viewed(r) == parsed(args.deep_view()),
            r matches Ok(options) ==> options.file@.len() > 0,
    {
        let ghost tokens = args.deep_view();
        let mut scanner = Scanner::new();
        let mut i: usize = 0;
        assert(tokens.skip(0) =~= tokens);
        while i < args.len()
            invariant
                i <= args.len(),
                tokens == args.deep_view(),
                Scan::start().tokens(tokens) == scanner@.tokens(tokens.skip(i as int)),
            decreases args.len() - i,
        {
            proof {
                let rest = tokens.skip(i as int);
                assert(rest.first() == args[i as int]@);
                assert(rest.drop_first() =~= tokens.skip(i + 1));
            }
            match scanner.token(args[i].as_str()) {
                Err(e) => {
                    return Err(e);
                },
                Ok(next) => {
                    scanner = next;
                },
            }
            i = i + 1;
        }
        scanner.finish()
    }
}

} // verus!
