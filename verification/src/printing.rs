use vstd::prelude::*;
use crate::linalg::lemma_flat_index;
use crate::scalar::Scalar;
use crate::state_space::{SpaceStateModel, StateSpace};
use crate::text::{concat_all, heading, matrix_heading, spliced, views_of};

verus! {

/// The pieces of one printed row of a matrix: a bar, then each entry of row
/// `r` as a cell followed by a space, then a bar and a line break.
pub open spec fn row_parts<S: Scalar>(m: Seq<S>, cols: nat, r: int) -> Seq<Seq<char>> {
    Seq::new(
        2 * cols + 2,
        |j: int|
            if j == 0 {
                seq!['|']
            } else if j == 2 * cols + 1 {
                seq!['|', '\n']
            } else if j % 2 == 1 {
                m[r * cols + (j - 1) / 2].cell()@
            } else {
                seq![' ']
            },
    )
}

/// The pieces of a printed matrix: its heading, then one line for each row.
pub open spec fn matrix_parts<S: Scalar>(letter: char, m: Seq<S>, rows: nat, cols: nat) -> Seq<
    Seq<char>,
> {
    Seq::new(
        rows + 1,
        |j: int|
            if j == 0 {
                heading(letter, rows, cols)
            } else {
                spliced(row_parts(m, cols, j - 1))
            },
    )
}

/// The printed form of the row-major `rows` x `cols` matrix `m`.
pub open spec fn matrix_text<S: Scalar>(letter: char, m: Seq<S>, rows: nat, cols: nat) -> Seq<
    char,
> {
    spliced(matrix_parts(letter, m, rows, cols))
}

/// The printed form of a model: the matrices A, B, C and D, each followed by
/// an empty line.
pub open spec fn description<S: Scalar>(m: StateSpace<S>) -> Seq<char> {
    spliced(
        seq![
            matrix_text('A', m.a, m.state_dim, m.state_dim),
            seq!['\n'],
            matrix_text('B', m.b, m.state_dim, m.input_dim),
            seq!['\n'],
            matrix_text('C', m.c, m.output_dim, m.state_dim),
            seq!['\n'],
            matrix_text('D', m.d, m.output_dim, m.input_dim),
            seq!['\n'],
        ],
    )
}

/// Prints the row-major `rows` x `cols` matrix `m` under its heading.
fn matrix_to_text<S: Scalar>(letter: char, m: &Vec<S>, rows: usize, cols: usize) -> (r: String)
    requires
        m.len() == rows * cols,
    ensures
        r@ == matrix_text(letter, m@, rows as nat, cols as nat),
{
    let mut lines: Vec<String> = Vec::new();
    lines.push(matrix_heading(letter, rows, cols));
    let mut r: usize = 0;
    while r < rows
        invariant
            r <= rows,
            m.len() == rows * cols,
            lines@.len() == 1 + r,
            forall|j: int|
                0 <= j < lines@.len() ==> (#[trigger] lines@[j])@ == matrix_parts(
                    letter,
                    m@,
                    rows as nat,
                    cols as nat,
                )[j],
        decreases rows - r,
    {
        let mut parts: Vec<String> = Vec::new();
        let bar = "|".to_owned();
        let end = "|\n".to_owned();
        proof {
            reveal_strlit("|");
            reveal_strlit("|\n");
            assert(bar@ =~= seq!['|']);
            assert(end@ =~= seq!['|', '\n']);
        }
        parts.push(bar);
        let mut c: usize = 0;
        while c < cols
            invariant
                c <= cols,
                r < rows,
                m.len() == rows * cols,
                end@ == seq!['|', '\n'],
                parts@.len() == 1 + 2 * c,
                forall|j: int|
                    0 <= j < parts@.len() ==> (#[trigger] parts@[j])@ == row_parts(
                        m@,
                        cols as nat,
                        r as int,
                    )[j],
            decreases cols - c,
        {
            proof {
                lemma_flat_index(rows as int, cols as int, r as int, c as int);
            }
            let gap = " ".to_owned();
            proof {
                reveal_strlit(" ");
                assert(gap@ =~= seq![' ']);
            }
            parts.push(m[r * cols + c].to_cell());
            parts.push(gap);
            c += 1;
        }
        parts.push(end);
        assert(views_of(parts@) =~= row_parts(m@, cols as nat, r as int));
        lines.push(concat_all(&parts));
        r += 1;
    }
    assert(views_of(lines@) =~= matrix_parts(letter, m@, rows as nat, cols as nat));
    concat_all(&lines)
}

impl<S: Scalar> SpaceStateModel<S> {
    /// The model in printed form: each matrix under a heading with its size,
    /// one line for each row.
    pub fn to_text(&self) -> (r: String)
        requires
            self.wf(),
        ensures
            r@ == description(self@),
    {
        let mut parts: Vec<String> = Vec::new();
        proof {
            reveal_strlit("\n");
            assert("\n"@ =~= seq!['\n']);
        }
        parts.push(matrix_to_text('A', self.mat_a(), self.state_dim(), self.state_dim()));
        parts.push("\n".to_owned());
        parts.push(matrix_to_text('B', self.mat_b(), self.state_dim(), self.input_dim()));
        parts.push("\n".to_owned());
        parts.push(matrix_to_text('C', self.mat_c(), self.output_dim(), self.state_dim()));
        parts.push("\n".to_owned());
        parts.push(matrix_to_text('D', self.mat_d(), self.output_dim(), self.input_dim()));
        parts.push("\n".to_owned());
        assert(views_of(parts@) =~= seq![
            matrix_text('A', self@.a, self@.state_dim, self@.state_dim),
            seq!['\n'],
            matrix_text('B', self@.b, self@.state_dim, self@.input_dim),
            seq!['\n'],
            matrix_text('C', self@.c, self@.output_dim, self@.state_dim),
            seq!['\n'],
            matrix_text('D', self@.d, self@.output_dim, self@.input_dim),
            seq!['\n'],
        ]);
        concat_all(&parts)
    }
}

} // verus!
