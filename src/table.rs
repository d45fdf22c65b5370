//! Ordering and rearranging of table columns.

use vstd::prelude::*;

verus! {

/// Whether each column of values runs along a row or down a column.
#[derive(Clone, Copy, PartialEq, Eq, Structural, Debug, Default)]
pub enum TableDirection {
    #[default]
    Row,
    Column,
}

/// The sort applied to a table.
#[derive(Clone, Copy, PartialEq, Eq, Structural, Debug, Default)]
pub enum SortDirection {
    Ascending,
    Descending,
    #[default]
    Unsorted,
}

/// What a comparison says of the first value against the second: it moves up
/// (it is greater), down (it is less), or stays (the two are equal).
#[derive(Clone, Copy, PartialEq, Eq, Structural, Debug, Default)]
pub enum SortMovement {
    Up,
    Down,
    #[default]
    Stay,
}

/// One column of a table: its title, its cells, and how it sorts, if it
/// does. The sort is of whatever kind the table's owner compares cells with.
#[derive(Clone, Debug)]
pub struct TableValues<S> {
    pub values: Vec<String>,
    pub title: String,
    pub sort: Option<S>,
}

impl<S> Default for TableValues<S> {
    fn default() -> (r: TableValues<S>)
        ensures
            r.values@.len() == 0,
            r.title@ == Seq::<char>::empty(),
            r.sort is None,
    {
        TableValues { values: Vec::new(), title: String::new(), sort: None }
    }
}

impl<S> TableValues<S> {
    /// Appends a cell to the column.
    pub fn value(&mut self, value: &str)
        ensures
            final(self).values@.len() == old(self).values@.len() + 1,
            forall|i: int| 0 <= i < old(self).values@.len() ==> final(self).values@[i] == old(self).values@[i],
            final(self).values@.last()@ == value@,
            final(self).title == old(self).title,
            final(self).sort == old(self).sort,
    {
        self.values.push(value.to_string());
    }
}

/// `i` is the first column titled `title`.
pub open spec fn first_titled<S>(data: Seq<TableValues<S>>, title: Seq<char>, i: int) -> bool {
    &&& 0 <= i < data.len()
    &&& data[i].title@ == title
    &&& forall|j: int| 0 <= j < i ==> data[j].title@ != title
}

/// The column that a sort orders the table by: the first one with the
/// sort's title, or none when the sort is off or no column has that title.
pub fn sort_column<S>(data: &Vec<TableValues<S>>, sort: &(String, SortDirection)) -> (r: Option<usize>)
    ensures
        sort.1 == SortDirection::Unsorted ==> r is None,
        sort.1 != SortDirection::Unsorted && r is Some ==> first_titled(data@, sort.0@, r->Some_0 as int),
        sort.1 != SortDirection::Unsorted && r is None ==> forall|j: int| 0 <= j < data@.len() ==> #[trigger] data@[j].title@ != sort.0@,
{
    if sort.1 == SortDirection::Unsorted {
        return None;
    }
    let mut i: usize = 0;
    while i < data.len()
        invariant
            i <= data@.len(),
            sort.1 != SortDirection::Unsorted,
            forall|j: int| 0 <= j < i ==> #[trigger] data@[j].title@ != sort.0@,
        decreases data@.len() - i,
    {
        if data[i].title == sort.0 {
            return Some(i);
        }
        i = i + 1;
    }
    None
}

/// `n` is the length of the shortest column, or 0 without columns.
pub open spec fn is_shortest<S>(data: Seq<TableValues<S>>, n: nat) -> bool {
    &&& forall|j: int| 0 <= j < data.len() ==> n <= (#[trigger] data[j]).values@.len()
    &&& (data.len() == 0 ==> n == 0)
    &&& (data.len() > 0 ==> exists|j: int| 0 <= j < data.len() && n == (#[trigger] data[j]).values@.len())
}

/// The table read across: row `i` holds cell `i` of each column, for as many
/// rows as the shortest column has cells.
pub fn rows_of<S>(data: &Vec<TableValues<S>>) -> (r: Vec<Vec<String>>)
    ensures
        is_shortest(data@, r@.len()),
        forall|i: int| 0 <= i < r@.len() ==> (#[trigger] r@[i])@.len() == data@.len(),
        forall|i: int, j: int| 0 <= i < r@.len() && 0 <= j < data@.len() ==> (#[trigger] r@[i]@[j])@ == data@[j].values@[i]@,
{
    let mut n: usize = 0;
    if data.len() > 0 {
        n = data[0].values.len();
    }
    let mut k: usize = 1;
    while k < data.len()
        invariant
            data@.len() > 0 ==> 1 <= k <= data@.len(),
            data@.len() == 0 ==> n == 0,
            data@.len() > 0 ==> forall|j: int| 0 <= j < k ==> n <= (#[trigger] data@[j]).values@.len(),
            data@.len() > 0 ==> exists|j: int| 0 <= j < k && n == (#[trigger] data@[j]).values@.len(),
        decreases data@.len() - k,
    {
        if data[k].values.len() < n {
            n = data[k].values.len();
        }
        k = k + 1;
    }
    let mut r: Vec<Vec<String>> = Vec::new();
    let mut i: usize = 0;
    while i < n
        invariant
            i <= n,
            is_shortest(data@, n as nat),
            r@.len() == i,
            forall|a: int| 0 <= a < i ==> (#[trigger] r@[a])@.len() == data@.len(),
            forall|a: int, j: int| 0 <= a < i && 0 <= j < data@.len() ==> (#[trigger] r@[a]@[j])@ == data@[j].values@[a]@,
        decreases n - i,
    {
        let mut row: Vec<String> = Vec::new();
        let mut j: usize = 0;
        while j < data.len()
            invariant
                j <= data@.len(),
                i < n,
                is_shortest(data@, n as nat),
                row@.len() == j,
                forall|b: int| 0 <= b < j ==> (#[trigger] row@[b])@ == data@[b].values@[i as int]@,
            decreases data@.len() - j,
        {
            assert(n <= data@[j as int].values@.len());
            row.push(data[j].values[i].clone());
            j = j + 1;
        }
        r.push(row);
        i = i + 1;
    }
    r
}

/// Lexicographic comparison of `a` and `b` from position `i` on:
/// 1, 0 or -1 as `a` is greater, equal or less.
pub open spec fn lex_cmp_from(a: Seq<char>, b: Seq<char>, i: int) -> int
    decreases a.len() - i,
{
    if i < 0 || (i >= a.len() && i >= b.len()) {
        0
    } else if i >= a.len() {
        -1
    } else if i >= b.len() {
        1
    } else if a[i] < b[i] {
        -1
    } else if a[i] > b[i] {
        1
    } else {
        lex_cmp_from(a, b, i + 1)
    }
}

/// The movement of `a` against `b` in the order of their characters.
pub open spec fn alphabetical_movement(a: Seq<char>, b: Seq<char>) -> SortMovement {
    let c = lex_cmp_from(a, b, 0);
    if c > 0 {
        SortMovement::Up
    } else if c < 0 {
        SortMovement::Down
    } else {
        SortMovement::Stay
    }
}

/// Compares two strings character by character.
pub fn alphabetical_sort(a: &str, b: &str) -> (r: SortMovement)
    ensures
        r == alphabetical_movement(a@, b@),
{
    let la = a.unicode_len();
    let lb = b.unicode_len();
    let mut i: usize = 0;
    while i < la && i < lb
        invariant
            la == a@.len(),
            lb == b@.len(),
            i <= la,
            i <= lb,
            lex_cmp_from(a@, b@, 0) == lex_cmp_from(a@, b@, i as int),
        decreases la - i,
    {
        let ca = a.get_char(i);
        let cb = b.get_char(i);
        if ca < cb {
            return SortMovement::Down;
        } else if ca > cb {
            return SortMovement::Up;
        }
        i = i + 1;
    }
    if la > lb {
        SortMovement::Up
    } else if la < lb {
        SortMovement::Down
    } else {
        SortMovement::Stay
    }
}

/// The direction a column takes when its sort control is pressed again.
pub open spec fn next_direction_spec(d: SortDirection) -> SortDirection {
    match d {
        SortDirection::Ascending => SortDirection::Descending,
        SortDirection::Descending => SortDirection::Unsorted,
        SortDirection::Unsorted => SortDirection::Ascending,
    }
}

/// Ascending, then descending, then unsorted, then ascending again.
pub fn next_direction(d: SortDirection) -> (r: SortDirection)
    ensures
        r == next_direction_spec(d),
{
    match d {
        SortDirection::Ascending => SortDirection::Descending,
        SortDirection::Descending => SortDirection::Unsorted,
        SortDirection::Unsorted => SortDirection::Ascending,
    }
}

/// The position in `values` that position `i` of an arrangement of `n`
/// entries reads from: `order[i]`, or counted from the end when descending.
pub open spec fn source_index(order: Seq<usize>, descending: bool, i: int) -> int {
    if descending {
        order[order.len() - 1 - i] as int
    } else {
        order[i] as int
    }
}

/// The values of a column taken in the given order of positions, reversed
/// when `descending`.
pub fn arrange(values: &Vec<String>, order: &Vec<usize>, descending: bool) -> (r: Vec<String>)
    requires
        forall|i: int| 0 <= i < order@.len() ==> order@[i] < values@.len(),
    ensures
        r@.len() == order@.len(),
        forall|i: int| 0 <= i < r@.len() ==> r@[i]@ == values@[source_index(order@, descending, i)]@,
{
    let n = order.len();
    let mut r: Vec<String> = Vec::new();
    let mut i: usize = 0;
    while i < n
        invariant
            n == order@.len(),
            i <= n,
            r@.len() == i,
            forall|i: int| 0 <= i < order@.len() ==> order@[i] < values@.len(),
            forall|j: int| 0 <= j < i ==> r@[j]@ == values@[source_index(order@, descending, j)]@,
        decreases n - i,
    {
        let k = if descending { order[n - 1 - i] } else { order[i] };
        r.push(values[k].clone());
        i = i + 1;
    }
    r
}

} // verus!
