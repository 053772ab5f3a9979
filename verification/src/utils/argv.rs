use vstd::prelude::*;

verus! {

/// A string can be handed to C as a NUL-terminated string exactly when it
/// holds no NUL character of its own.
pub open spec fn is_c_string(s: Seq<char>) -> bool {
    !s.contains('\0')
}

/// Every string of `args` can be handed to C.
pub open spec fn all_c_strings(args: Seq<Seq<char>>) -> bool {
    forall|i: int| 0 <= i < args.len() ==> is_c_string(#[trigger] args[i])
}

/// The characters of each string of `v`.
pub open spec fn strings_view(v: Seq<String>) -> Seq<Seq<char>> {
    v.map_values(|s: String| s@)
}

/// Tells whether `s` holds no NUL character, that is, whether it can become a
/// C string.
pub fn is_c_compatible(s: &str) -> (r: bool)
    ensures
        r == is_c_string(s@),
{
    for c in it: s.chars()
        invariant
            it.seq() == s@,
            forall|j: int| 0 <= j < it.index() ==> s@[j] != '\0',
    {
        if c == '\0' {
            assert(s@[it.index()] == '\0');
            return false;
        }
    }
    true
}

/// Tells whether every string of `args` can become a C string.
pub fn all_c_compatible(args: &Vec<String>) -> (r: bool)
    ensures
        r == all_c_strings(strings_view(args@)),
{
    let n = args.len();
    for i in 0..n
        invariant
            n == args@.len(),
            forall|j: int| 0 <= j < i ==> is_c_string(#[trigger] args@[j]@),
    {
        if !is_c_compatible(args[i].as_str()) {
            assert(!is_c_string(strings_view(args@)[i as int]));
            return false;
        }
    }
    assert(all_c_strings(strings_view(args@)));
    true
}

/// The characters of each entry of a pointer table; the null entry stays
/// `None`.
pub open spec fn table_view(t: Seq<Option<String>>) -> Seq<Option<Seq<char>>> {
    t.map_values(|e: Option<String>| option_string_view(e))
}

/// The characters of `e`, if it holds a string.
pub open spec fn option_string_view(e: Option<String>) -> Option<Seq<char>> {
    match e {
        Some(s) => Some(s@),
        None => None,
    }
}

/// The argument vector of a C program: the arguments as C strings, and the
/// table of pointers to them that C reads as `argv`, which ends in a null
/// entry after the last argument.
///
/// Here a table entry `Some(i)` points at the `i`-th argument, and `None` is
/// the null pointer.
pub struct Argv {
    argv: Vec<String>,
    argv_ptr: Vec<Option<usize>>,
}

impl View for Argv {
    type V = Seq<Seq<char>>;

    /// The arguments, in order.
    closed spec fn view(&self) -> Seq<Seq<char>> {
        strings_view(self.argv@)
    }
}

impl Argv {
    /// The table is one longer than the argument list; entry `i` points at
    /// argument `i`, the last entry is null, and no argument holds a NUL.
    #[verifier::type_invariant]
    spec fn inv(self) -> bool {
        &&& self.argv_ptr@.len() == self.argv@.len() + 1
        &&& forall|i: int| 0 <= i < self.argv@.len() ==> #[trigger] self.argv_ptr@[i] == Some(i as usize)
        &&& self.argv_ptr@[self.argv@.len() as int] == None::<usize>
        &&& all_c_strings(strings_view(self.argv@))
    }

    /// The pointer table that C sees as `argv`, for `args`: one entry per
    /// argument, in order, then the null entry.
    pub open spec fn argv_table(args: Seq<Seq<char>>) -> Seq<Option<Seq<char>>> {
        Seq::new(args.len() + 1, |i: int| if i < args.len() { Some(args[i]) } else { None })
    }

    /// Takes the arguments and builds the C argument vector from them.
    /// No argument may hold a NUL character.
    pub fn new(args: Vec<String>) -> (r: Self)
        requires
            all_c_strings(strings_view(args@)),
        ensures
            r@ == strings_view(args@),
    {
        let n = args.len();
        let mut argv_ptr: Vec<Option<usize>> = Vec::new();
        for i in 0..n
            invariant
                n == args@.len(),
                argv_ptr@.len() == i,
                forall|j: int| 0 <= j < i ==> #[trigger] argv_ptr@[j] == Some(j as usize),
        {
            argv_ptr.push(Some(i));
        }
        argv_ptr.push(None);
        Argv { argv: args, argv_ptr }
    }

    /// The table C reads as `argv`: each argument, in order, then the null
    /// entry. None of the arguments holds a NUL character.
    pub fn get_argv(&self) -> (r: Vec<Option<String>>)
        ensures
            table_view(r@) == Self::argv_table(self@),
            all_c_strings(self@),
    {
        proof {
            use_type_invariant(self);
        }
        let n = self.argv_ptr.len();
        let mut r: Vec<Option<String>> = Vec::new();
        for k in 0..n
            invariant
                n == self.argv_ptr@.len(),
                n == self.argv@.len() + 1,
                r@.len() == k,
                forall|i: int| 0 <= i < self.argv@.len() ==> #[trigger] self.argv_ptr@[i] == Some(i as usize),
                self.argv_ptr@[self.argv@.len() as int] == None::<usize>,
                forall|j: int| #![trigger r@[j]] 0 <= j < k ==> match r@[j] {
                    Some(s) => j < self.argv@.len() && s@ == self.argv@[j]@,
                    None => j == self.argv@.len(),
                },
        {
            let entry = match self.argv_ptr[k] {
                Some(idx) => Some(self.argv[idx].clone()),
                None => None,
            };
            r.push(entry);
        }
        assert(table_view(r@) =~= Self::argv_table(self@));
        r
    }

    /// What C reads as `argv[0]`: the first argument, or the null pointer
    /// (`None`) when there is no argument.
    pub fn get_argv0(&self) -> (r: Option<String>)
        ensures
            match r {
                Some(s) => self@.len() > 0 && s@ == self@[0],
                None => self@.len() == 0,
            },
    {
        proof {
            use_type_invariant(self);
        }
        match self.argv_ptr[0] {
            Some(idx) => Some(self.argv[idx].clone()),
            None => None,
        }
    }

    /// The number of arguments, as C's `argc` (the null entry of the table
    /// is not counted). Counts past `i32::MAX` wrap, as a cast does.
    pub fn get_argc(&self) -> (r: i32)
        ensures
            r == self@.len() as i32,
    {
        proof {
            use_type_invariant(self);
        }
        self.argv.len() as i32
    }
}

/// A string can become a C string exactly when no character of it is NUL;
/// the empty string can, and a string holding a NUL anywhere cannot.
pub proof fn c_string_is_nul_free(s: Seq<char>)
    ensures
        is_c_string(s) <==> forall|i: int| 0 <= i < s.len() ==> s[i] != '\0',
        is_c_string(Seq::<char>::empty()),
        !is_c_string(s.push('\0')),
{
    assert(s.push('\0')[s.len() as int] == '\0');
    if !is_c_string(s) {
        let i = choose|i: int| 0 <= i < s.len() && s[i] == '\0';
        assert(s[i] == '\0');
    }
}

/// The table C reads as `argv` holds one entry per argument, each the
/// argument at its place, and then the null entry, so `argc`, the number of
/// arguments, leaves that null entry out; and `argv[0]` is the first
/// argument, or null when there is none.
pub proof fn argv_table_layout(args: Seq<Seq<char>>)
    ensures
        Argv::argv_table(args).len() == args.len() + 1,
        Argv::argv_table(args)[args.len() as int] == None::<Seq<char>>,
        forall|i: int| 0 <= i < args.len() ==> #[trigger] Argv::argv_table(args)[i] == Some(args[i]),
        Argv::argv_table(args)[0] == (if args.len() > 0 {
            Some(args[0])
        } else {
            None
        }),
{
}

} // verus!
