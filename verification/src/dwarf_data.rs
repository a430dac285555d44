//! Debugging symbols as plain tables: which function covers an address, which
//! source line an address belongs to, and where a line or a function starts.

use vstd::prelude::*;

verus! {

/// One row of the line table: the instruction at `address` starts source
/// line `number` of `file`.
#[derive(Debug)]
pub struct Line {
    pub file: String,
    pub number: usize,
    pub address: usize,
}

/// One function: its name, the source file that defines it, the address of
/// its first instruction and the length of its code in bytes.
#[derive(Debug)]
pub struct Function {
    pub name: String,
    pub file: String,
    pub address: usize,
    pub text_length: usize,
}

/// The symbols of one program. `lines` is expected to list each function's
/// rows by rising address, as a compiler emits them.
#[derive(Debug)]
pub struct DwarfData {
    pub functions: Vec<Function>,
    pub lines: Vec<Line>,
}

/// Whether two strings hold the same text.
pub fn same_text(a: &str, b: &str) -> (same: bool)
    ensures
        same == (a@ == b@),
{
    a.to_owned() == b.to_owned()
}

impl Line {
    /// Whether two rows name the same source line: the same file and number.
    pub open spec fn spec_same_source_line(&self, other: &Line) -> bool {
        self.file@ == other.file@ && self.number == other.number
    }

    #[verifier::when_used_as_spec(spec_same_source_line)]
    pub fn same_source_line(&self, other: &Line) -> (same: bool)
        ensures
            same == self.spec_same_source_line(other),
    {
        self.number == other.number && self.file == other.file
    }

    /// Whether this row may answer a request for line `number`, in `file` if
    /// one is given: it lies in that file, at that line or a later one.
    pub open spec fn answers(&self, file: Option<Seq<char>>, number: usize) -> bool {
        (file matches Some(name) ==> self.file@ == name) && self.number >= number
    }

    /// Whether this row belongs to `function` and lies at or before `addr`.
    pub open spec fn locates(&self, function: &Function, addr: usize) -> bool {
        self.file@ == function.file@ && function.address <= self.address <= addr
    }
}

impl Function {
    /// Whether `addr` lies inside this function's code.
    pub open spec fn covers(&self, addr: usize) -> bool {
        self.address <= addr && addr - self.address < self.text_length
    }

    /// Whether this function is the one asked for by `name`, in `file` if
    /// one is given.
    pub open spec fn answers(&self, file: Option<Seq<char>>, name: Seq<char>) -> bool {
        (file matches Some(wanted) ==> self.file@ == wanted) && self.name@ == name
    }
}

/// The first function of `functions` that covers `addr`.
pub open spec fn first_covering(functions: Seq<Function>, addr: usize) -> Option<Function>
    decreases functions.len(),
{
    if functions.len() == 0 {
        None
    } else if functions[0].covers(addr) {
        Some(functions[0])
    } else {
        first_covering(functions.drop_first(), addr)
    }
}

/// The first function of `functions` that answers to `name` (and `file`).
pub open spec fn first_named(
    functions: Seq<Function>,
    file: Option<Seq<char>>,
    name: Seq<char>,
) -> Option<Function>
    decreases functions.len(),
{
    if functions.len() == 0 {
        None
    } else if functions[0].answers(file, name) {
        Some(functions[0])
    } else {
        first_named(functions.drop_first(), file, name)
    }
}

/// The first row of `lines` that answers a request for line `number`.
pub open spec fn first_line_from(
    lines: Seq<Line>,
    file: Option<Seq<char>>,
    number: usize,
) -> Option<Line>
    decreases lines.len(),
{
    if lines.len() == 0 {
        None
    } else if lines[0].answers(file, number) {
        Some(lines[0])
    } else {
        first_line_from(lines.drop_first(), file, number)
    }
}

/// The last row of `lines` that belongs to `function` and lies at or before
/// `addr`.
pub open spec fn last_line_before(
    lines: Seq<Line>,
    function: &Function,
    addr: usize,
) -> Option<Line>
    decreases lines.len(),
{
    if lines.len() == 0 {
        None
    } else if lines.last().locates(function, addr) {
        Some(lines.last())
    } else {
        last_line_before(lines.drop_last(), function, addr)
    }
}

impl DwarfData {
    /// Symbols from a list of functions and a line table.
    pub fn new(functions: Vec<Function>, lines: Vec<Line>) -> (data: DwarfData)
        ensures
            data.functions == functions,
            data.lines == lines,
    {
        DwarfData { functions, lines }
    }

    /// The function whose code contains `addr`.
    pub open spec fn function_at(&self, addr: usize) -> Option<Function> {
        first_covering(self.functions@, addr)
    }

    /// The name of the function whose code contains `addr`.
    pub open spec fn function_name_at(&self, addr: usize) -> Option<String> {
        match self.function_at(addr) {
            Some(function) => Some(function.name),
            None => None,
        }
    }

    /// The source line that `addr` belongs to: the last row of the function
    /// that contains `addr` which lies at or before `addr`. An address outside
    /// every function has no line.
    pub open spec fn line_at(&self, addr: usize) -> Option<Line> {
        match self.function_at(addr) {
            Some(function) => last_line_before(self.lines@, &function, addr),
            None => None,
        }
    }

    /// The address at which line `number` starts (in `file`, if given): that
    /// of the first row at that line or a later one.
    pub open spec fn addr_of_line(&self, file: Option<Seq<char>>, number: usize) -> Option<usize> {
        match first_line_from(self.lines@, file, number) {
            Some(line) => Some(line.address),
            None => None,
        }
    }

    /// The address at which the function `name` starts (in `file`, if given).
    pub open spec fn addr_of_function(&self, file: Option<Seq<char>>, name: Seq<char>) -> Option<
        usize,
    > {
        match first_named(self.functions@, file, name) {
            Some(function) => Some(function.address),
            None => None,
        }
    }

    fn find_function(&self, addr: usize) -> (found: Option<usize>)
        ensures
            match found {
                Some(i) => i < self.functions.len() && self.function_at(addr) == Some(
                    self.functions[i as int],
                ),
                None => self.function_at(addr) is None,
            },
    {
        let mut i: usize = 0;
        assert(self.functions@.skip(0) =~= self.functions@);
        while i < self.functions.len()
            invariant
                i <= self.functions.len(),
                first_covering(self.functions@, addr) == first_covering(
                    self.functions@.skip(i as int),
                    addr,
                ),
            decreases self.functions.len() - i,
        {
            let function = &self.functions[i];
            if function.address <= addr && addr - function.address < function.text_length {
                return Some(i);
            }
            assert(self.functions@.skip(i as int).drop_first() =~= self.functions@.skip(i + 1));
            i += 1;
        }
        None
    }

    /// The name of the function whose code contains `curr_addr`.
    pub fn get_function_from_addr(&self, curr_addr: usize) -> (name: Option<String>)
        ensures
            name == self.function_name_at(curr_addr),
    {
        match self.find_function(curr_addr) {
            Some(i) => Some(self.functions[i].name.clone()),
            None => None,
        }
    }

    /// The source line that `curr_addr` belongs to.
    pub fn get_line_from_addr(&self, curr_addr: usize) -> (line: Option<Line>)
        ensures
            line == self.line_at(curr_addr),
    {
        let function = match self.find_function(curr_addr) {
            Some(i) => &self.functions[i],
            None => { return None; },
        };
        let mut i: usize = self.lines.len();
        assert(self.lines@.take(i as int) =~= self.lines@);
        while i > 0
            invariant
                i <= self.lines.len(),
                self.function_at(curr_addr) == Some(*function),
                last_line_before(self.lines@, function, curr_addr) == last_line_before(
                    self.lines@.take(i as int),
                    function,
                    curr_addr,
                ),
            decreases i,
        {
            i -= 1;
            let row = &self.lines[i];
            assert(self.lines@.take(i + 1).last() == *row);
            if function.address <= row.address && row.address <= curr_addr && row.file
                == function.file {
                return Some(
                    Line { file: row.file.clone(), number: row.number, address: row.address },
                );
            }
            assert(self.lines@.take(i + 1).drop_last() =~= self.lines@.take(i as int));
        }
        None
    }

    /// The address at which line `line_number` starts, in `file` if one is
    /// given.
    pub fn get_addr_for_line(&self, file: Option<&str>, line_number: usize) -> (addr: Option<usize>)
        ensures
            addr == self.addr_of_line(
                match file {
                    Some(name) => Some(name@),
                    None => None,
                },
                line_number,
            ),
    {
        let ghost wanted: Option<Seq<char>> = match file {
            Some(name) => Some(name@),
            None => None,
        };
        let mut i: usize = 0;
        assert(self.lines@.skip(0) =~= self.lines@);
        while i < self.lines.len()
            invariant
                i <= self.lines.len(),
                wanted == match file {
                    Some(name) => Some(name@),
                    None => None,
                },
                first_line_from(self.lines@, wanted, line_number) == first_line_from(
                    self.lines@.skip(i as int),
                    wanted,
                    line_number,
                ),
            decreases self.lines.len() - i,
        {
            let row = &self.lines[i];
            let in_file = match file {
                Some(name) => same_text(name, row.file.as_str()),
                None => true,
            };
            if in_file && row.number >= line_number {
                return Some(row.address);
            }
            assert(self.lines@.skip(i as int).drop_first() =~= self.lines@.skip(i + 1));
            i += 1;
        }
        None
    }

    /// The address at which the function `func_name` starts, in `file` if one
    /// is given.
    pub fn get_addr_for_function(&self, file: Option<&str>, func_name: &str) -> (addr: Option<
        usize,
    >)
        ensures
            addr == self.addr_of_function(
                match file {
                    Some(name) => Some(name@),
                    None => None,
                },
                func_name@,
            ),
    {
        let ghost wanted: Option<Seq<char>> = match file {
            Some(name) => Some(name@),
            None => None,
        };
        let mut i: usize = 0;
        assert(self.functions@.skip(0) =~= self.functions@);
        while i < self.functions.len()
            invariant
                i <= self.functions.len(),
                wanted == match file {
                    Some(name) => Some(name@),
                    None => None,
                },
                first_named(self.functions@, wanted, func_name@) == first_named(
                    self.functions@.skip(i as int),
                    wanted,
                    func_name@,
                ),
            decreases self.functions.len() - i,
        {
            let function = &self.functions[i];
            let in_file = match file {
                Some(name) => same_text(name, function.file.as_str()),
                None => true,
            };
            if in_file && same_text(function.name.as_str(), func_name) {
                return Some(function.address);
            }
            assert(self.functions@.skip(i as int).drop_first() =~= self.functions@.skip(i + 1));
            i += 1;
        }
        None
    }
}

} // verus!
