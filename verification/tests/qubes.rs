//! The authored orientation masks of every shape and facing.

use tetrix::geometry::Direction;
use tetrix::tetromino::{Tetromino, QUBE_SIZE};

#[test]
fn test_i_up() {
    let q = Tetromino::I.get_cube_by_direction(&Direction::Up);
    assert_eq!(q.len(), QUBE_SIZE as usize);
    assert_eq!(q[0], 0b1000_0000);
    assert_eq!(q[1], 0b1000_0000);
    assert_eq!(q[2], 0b1000_0000);
    assert_eq!(q[3], 0b1000_0000);
}

#[test]
fn test_i_right() {
    let q = Tetromino::I.get_cube_by_direction(&Direction::Right);
    assert_eq!(q.len(), QUBE_SIZE as usize);
    assert_eq!(q[0], 0b1111_0000);
    assert_eq!(q[1], 0b0000_0000);
    assert_eq!(q[2], 0b0000_0000);
    assert_eq!(q[3], 0b0000_0000);
}

#[test]
fn test_i_down() {
    let q = Tetromino::I.get_cube_by_direction(&Direction::Down);
    assert_eq!(q.len(), QUBE_SIZE as usize);
    assert_eq!(q[0], 0b1000_0000);
    assert_eq!(q[1], 0b1000_0000);
    assert_eq!(q[2], 0b1000_0000);
    assert_eq!(q[3], 0b1000_0000);
}

#[test]
fn test_i_left() {
    let q = Tetromino::I.get_cube_by_direction(&Direction::Left);
    assert_eq!(q.len(), QUBE_SIZE as usize);
    assert_eq!(q[0], 0b1111_0000);
    assert_eq!(q[1], 0b0000_0000);
    assert_eq!(q[2], 0b0000_0000);
    assert_eq!(q[3], 0b0000_0000);
}

#[test]
fn test_j_up() {
    let q = Tetromino::J.get_cube_by_direction(&Direction::Up);
    assert_eq!(q.len(), QUBE_SIZE as usize);
    assert_eq!(q[0], 0b1000_0000);
    assert_eq!(q[1], 0b1110_0000);
    assert_eq!(q[2], 0b0000_0000);
    assert_eq!(q[3], 0b0000_0000);
}

#[test]
fn test_j_right() {
    let q = Tetromino::J.get_cube_by_direction(&Direction::Right);
    assert_eq!(q.len(), QUBE_SIZE as usize);
    assert_eq!(q[0], 0b1100_0000);
    assert_eq!(q[1], 0b1000_0000);
    assert_eq!(q[2], 0b1000_0000);
    assert_eq!(q[3], 0b0000_0000);
}

#[test]
fn test_j_down() {
    let q = Tetromino::J.get_cube_by_direction(&Direction::Down);
    assert_eq!(q.len(), QUBE_SIZE as usize);
    assert_eq!(q[0], 0b1110_0000);
    assert_eq!(q[1], 0b0010_0000);
    assert_eq!(q[2], 0b0000_0000);
    assert_eq!(q[3], 0b0000_0000);
}

#[test]
fn test_j_left() {
    let q = Tetromino::J.get_cube_by_direction(&Direction::Left);
    assert_eq!(q.len(), QUBE_SIZE as usize);
    assert_eq!(q[0], 0b0100_0000);
    assert_eq!(q[1], 0b0100_0000);
    assert_eq!(q[2], 0b1100_0000);
    assert_eq!(q[3], 0b0000_0000);
}

#[test]
fn test_l_up() {
    let q = Tetromino::L.get_cube_by_direction(&Direction::Up);
    assert_eq!(q.len(), QUBE_SIZE as usize);
    assert_eq!(q[0], 0b0010_0000);
    assert_eq!(q[1], 0b1110_0000);
    assert_eq!(q[2], 0b0000_0000);
    assert_eq!(q[3], 0b0000_0000);
}

#[test]
fn test_l_right() {
    let q = Tetromino::L.get_cube_by_direction(&Direction::Right);
    assert_eq!(q.len(), QUBE_SIZE as usize);
    assert_eq!(q[0], 0b1000_0000);
    assert_eq!(q[1], 0b1000_0000);
    assert_eq!(q[2], 0b1100_0000);
    assert_eq!(q[3], 0b0000_0000);
}

#[test]
fn test_l_down() {
    let q = Tetromino::L.get_cube_by_direction(&Direction::Down);
    assert_eq!(q.len(), QUBE_SIZE as usize);
    assert_eq!(q[0], 0b1110_0000);
    assert_eq!(q[1], 0b1000_0000);
    assert_eq!(q[2], 0b0000_0000);
    assert_eq!(q[3], 0b0000_0000);
}

#[test]
fn test_l_left() {
    let q = Tetromino::L.get_cube_by_direction(&Direction::Left);
    assert_eq!(q.len(), QUBE_SIZE as usize);
    assert_eq!(q[0], 0b1100_0000);
    assert_eq!(q[1], 0b0100_0000);
    assert_eq!(q[2], 0b0100_0000);
    assert_eq!(q[3], 0b0000_0000);
}

#[test]
fn test_o_up() {
    let q = Tetromino::O.get_cube_by_direction(&Direction::Up);
    assert_eq!(q.len(), QUBE_SIZE as usize);
    assert_eq!(q[0], 0b1100_0000);
    assert_eq!(q[1], 0b1100_0000);
    assert_eq!(q[2], 0b0000_0000);
    assert_eq!(q[3], 0b0000_0000);
}

#[test]
fn test_o_right() {
    let q = Tetromino::O.get_cube_by_direction(&Direction::Right);
    assert_eq!(q.len(), QUBE_SIZE as usize);
    assert_eq!(q[0], 0b1100_0000);
    assert_eq!(q[1], 0b1100_0000);
    assert_eq!(q[2], 0b0000_0000);
    assert_eq!(q[3], 0b0000_0000);
}

#[test]
fn test_o_down() {
    let q = Tetromino::O.get_cube_by_direction(&Direction::Down);
    assert_eq!(q.len(), QUBE_SIZE as usize);
    assert_eq!(q[0], 0b1100_0000);
    assert_eq!(q[1], 0b1100_0000);
    assert_eq!(q[2], 0b0000_0000);
    assert_eq!(q[3], 0b0000_0000);
}

#[test]
fn test_o_left() {
    let q = Tetromino::O.get_cube_by_direction(&Direction::Left);
    assert_eq!(q.len(), QUBE_SIZE as usize);
    assert_eq!(q[0], 0b1100_0000);
    assert_eq!(q[1], 0b1100_0000);
    assert_eq!(q[2], 0b0000_0000);
    assert_eq!(q[3], 0b0000_0000);
}

#[test]
fn test_s_up() {
    let q = Tetromino::S.get_cube_by_direction(&Direction::Up);
    assert_eq!(q.len(), QUBE_SIZE as usize);
    assert_eq!(q[0], 0b0110_0000);
    assert_eq!(q[1], 0b1100_0000);
    assert_eq!(q[2], 0b0000_0000);
    assert_eq!(q[3], 0b0000_0000);
}

#[test]
fn test_s_right() {
    let q = Tetromino::S.get_cube_by_direction(&Direction::Right);
    assert_eq!(q.len(), QUBE_SIZE as usize);
    assert_eq!(q[0], 0b1000_0000);
    assert_eq!(q[1], 0b1100_0000);
    assert_eq!(q[2], 0b0100_0000);
    assert_eq!(q[3], 0b0000_0000);
}

#[test]
fn test_s_down() {
    let q = Tetromino::S.get_cube_by_direction(&Direction::Down);
    assert_eq!(q.len(), QUBE_SIZE as usize);
    assert_eq!(q[0], 0b0110_0000);
    assert_eq!(q[1], 0b1100_0000);
    assert_eq!(q[2], 0b0000_0000);
    assert_eq!(q[3], 0b0000_0000);
}

#[test]
fn test_s_left() {
    let q = Tetromino::S.get_cube_by_direction(&Direction::Left);
    assert_eq!(q.len(), QUBE_SIZE as usize);
    assert_eq!(q[0], 0b1000_0000);
    assert_eq!(q[1], 0b1100_0000);
    assert_eq!(q[2], 0b0100_0000);
    assert_eq!(q[3], 0b0000_0000);
}

#[test]
fn test_t_up() {
    let q = Tetromino::T.get_cube_by_direction(&Direction::Up);
    assert_eq!(q.len(), QUBE_SIZE as usize);
    assert_eq!(q[0], 0b0100_0000);
    assert_eq!(q[1], 0b1110_0000);
    assert_eq!(q[2], 0b0000_0000);
    assert_eq!(q[3], 0b0000_0000);
}

#[test]
fn test_t_right() {
    let q = Tetromino::T.get_cube_by_direction(&Direction::Right);
    assert_eq!(q.len(), QUBE_SIZE as usize);
    assert_eq!(q[0], 0b1000_0000);
    assert_eq!(q[1], 0b1100_0000);
    assert_eq!(q[2], 0b1000_0000);
    assert_eq!(q[3], 0b0000_0000);
}

#[test]
fn test_t_down() {
    let q = Tetromino::T.get_cube_by_direction(&Direction::Down);
    assert_eq!(q.len(), QUBE_SIZE as usize);
    assert_eq!(q[0], 0b1110_0000);
    assert_eq!(q[1], 0b0100_0000);
    assert_eq!(q[2], 0b0000_0000);
    assert_eq!(q[3], 0b0000_0000);
}

#[test]
fn test_t_left() {
    let q = Tetromino::T.get_cube_by_direction(&Direction::Left);
    assert_eq!(q.len(), QUBE_SIZE as usize);
    assert_eq!(q[0], 0b0100_0000);
    assert_eq!(q[1], 0b1100_0000);
    assert_eq!(q[2], 0b0100_0000);
    assert_eq!(q[3], 0b0000_0000);
}

#[test]
fn test_z_up() {
    let q = Tetromino::Z.get_cube_by_direction(&Direction::Up);
    assert_eq!(q.len(), QUBE_SIZE as usize);
    assert_eq!(q[0], 0b1100_0000);
    assert_eq!(q[1], 0b0110_0000);
    assert_eq!(q[2], 0b0000_0000);
    assert_eq!(q[3], 0b0000_0000);
}

#[test]
fn test_z_right() {
    let q = Tetromino::Z.get_cube_by_direction(&Direction::Right);
    assert_eq!(q.len(), QUBE_SIZE as usize);
    assert_eq!(q[0], 0b0100_0000);
    assert_eq!(q[1], 0b1100_0000);
    assert_eq!(q[2], 0b1000_0000);
    assert_eq!(q[3], 0b0000_0000);
}

#[test]
fn test_z_down() {
    let q = Tetromino::Z.get_cube_by_direction(&Direction::Down);
    assert_eq!(q.len(), QUBE_SIZE as usize);
    assert_eq!(q[0], 0b1100_0000);
    assert_eq!(q[1], 0b0110_0000);
    assert_eq!(q[2], 0b0000_0000);
    assert_eq!(q[3], 0b0000_0000);
}

#[test]
fn test_z_left() {
    let q = Tetromino::Z.get_cube_by_direction(&Direction::Left);
    assert_eq!(q.len(), QUBE_SIZE as usize);
    assert_eq!(q[0], 0b0100_0000);
    assert_eq!(q[1], 0b1100_0000);
    assert_eq!(q[2], 0b1000_0000);
    assert_eq!(q[3], 0b0000_0000);
}
