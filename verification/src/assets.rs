//! The tile atlas: one sprite sheet, cut into a fixed grid of equally sized
//! tiles that are addressed by a row-major integer id.
//!
//! The atlas never touches pixels. It knows the sheet's pixel dimensions and
//! answers with rectangles; whoever owns the decoded image blits them.

use std::collections::HashMap;
use vstd::arithmetic::div_mod::lemma_fundamental_div_mod_converse;
use vstd::prelude::*;

verus! {

broadcast use vstd::std_specs::hash::group_hash_axioms;

/// Columns of the stock sprite sheet.
pub const DEFAULT_COLUMNS: i32 = 8;

/// Rows of the stock sprite sheet.
pub const DEFAULT_ROWS: i32 = 5;

/// Why a sprite sheet could not be loaded.
#[derive(Clone, Copy, Debug, PartialEq, Eq, Structural)]
pub enum LoadFailure {
    /// The file is missing, unreadable or not an image.
    Unreadable,
    /// The image was decoded but could not be brought into the in-memory
    /// pixel format.
    NotConvertible,
}

/// Everything that can go wrong when loading or querying the atlas.
#[derive(Clone, Copy, Debug, PartialEq, Eq, Structural)]
pub enum AtlasError {
    /// The sprite sheet could not be loaded. Fatal at startup.
    Load(LoadFailure),
    /// The atlas was queried before it was initialized.
    NotInitialized,
    /// The tile id lies outside the grid.
    UnknownTileId,
    /// The sub-view was issued by an atlas that has since been replaced.
    StaleSubView,
}

impl AtlasError {
    /// The text shown to the user when this error aborts the program.
    pub fn message(&self) -> (text: &'static str)
        ensures
            text@ == (match *self {
                AtlasError::Load(LoadFailure::Unreadable) => "failed to load tilemap source"@,
                AtlasError::Load(LoadFailure::NotConvertible) => "failed to convert tilemap to memory bitmap"@,
                AtlasError::NotInitialized => "attempted to get tilemap before they were initialized"@,
                AtlasError::UnknownTileId => "no tile with this id"@,
                AtlasError::StaleSubView => "tile view outlived its tilemap"@,
            }),
    {
        match self {
            AtlasError::Load(LoadFailure::Unreadable) => "failed to load tilemap source",
            AtlasError::Load(LoadFailure::NotConvertible) => "failed to convert tilemap to memory bitmap",
            AtlasError::NotInitialized => "attempted to get tilemap before they were initialized",
            AtlasError::UnknownTileId => "no tile with this id",
            AtlasError::StaleSubView => "tile view outlived its tilemap",
        }
    }
}

/// How a sprite sheet is partitioned: `columns` cells across, `rows` down.
#[derive(Clone, Copy, Debug, PartialEq, Eq, Structural)]
pub struct Grid {
    pub columns: i32,
    pub rows: i32,
}

impl Grid {
    /// Number of cells, and so of tile ids.
    pub open spec fn cells(self) -> int {
        self.columns * self.rows
    }

    /// The grid has at least one cell, and every cell has an `i32` id.
    pub open spec fn valid(self) -> bool {
        &&& self.columns > 0
        &&& self.rows > 0
        &&& self.cells() <= i32::MAX
    }

    /// An image of `width` by `height` pixels gives every cell of this grid
    /// at least one pixel in each direction.
    pub open spec fn fits(self, width: int, height: int) -> bool {
        &&& self.valid()
        &&& self.columns <= width
        &&& self.rows <= height
    }

    /// The grid of the stock sprite sheet.
    pub fn standard() -> (grid: Grid)
        ensures
            grid == (Grid { columns: DEFAULT_COLUMNS, rows: DEFAULT_ROWS }),
    {
        Grid { columns: DEFAULT_COLUMNS, rows: DEFAULT_ROWS }
    }

    /// Whether an image of the given size can be cut into this grid.
    pub fn can_cut(&self, width: i32, height: i32) -> (ok: bool)
        ensures
            ok == self.fits(width as int, height as int),
    {
        if self.columns <= 0 || self.rows <= 0 {
            return false;
        }
        match self.columns.checked_mul(self.rows) {
            Some(_) => self.columns <= width && self.rows <= height,
            None => false,
        }
    }
}

/// A rectangle of pixels, as a mathematical value.
pub struct Extent {
    pub x: int,
    pub y: int,
    pub w: int,
    pub h: int,
}

/// A rectangle of pixels inside the sprite sheet.
#[derive(Clone, Copy, Debug, PartialEq, Eq, Structural)]
pub struct Region {
    pub x: i32,
    pub y: i32,
    pub w: i32,
    pub h: i32,
}

impl View for Region {
    type V = Extent;

    open spec fn view(&self) -> Extent {
        Extent { x: self.x as int, y: self.y as int, w: self.w as int, h: self.h as int }
    }
}

/// What the image loader reported for the sprite sheet file.
#[derive(Clone, Copy, Debug, PartialEq, Eq, Structural)]
pub enum Decoded {
    /// The file is missing, unreadable or not an image.
    Unreadable,
    /// The image could not be brought into the in-memory pixel format.
    NotConvertible,
    /// A decoded image of this many pixels.
    Image { width: i32, height: i32 },
}

/// A sprite sheet that has been read and decoded. Only [`load_tilemap`] makes
/// one, so holding an image means that loading is over.
#[derive(Clone, Copy, Debug, PartialEq, Eq, Structural)]
pub struct DecodedImage {
    width: i32,
    height: i32,
}

impl DecodedImage {
    /// Width of the image in pixels.
    pub closed spec fn spec_width(&self) -> i32 {
        self.width
    }

    /// Height of the image in pixels.
    pub closed spec fn spec_height(&self) -> i32 {
        self.height
    }

    /// Width of the image in pixels.
    #[verifier::when_used_as_spec(spec_width)]
    pub fn width(&self) -> (width: i32)
        ensures
            width == self.spec_width(),
    {
        self.width
    }

    /// Height of the image in pixels.
    #[verifier::when_used_as_spec(spec_height)]
    pub fn height(&self) -> (height: i32)
        ensures
            height == self.spec_height(),
    {
        self.height
    }
}

/// Turns the loader's report into a decoded image, or says why there is none.
/// Every image that was decoded loads, whatever its size.
///
/// Reading and decoding the file is the caller's business and belongs off the
/// rendering context; this function only judges the outcome. It does not
/// touch the atlas.
pub fn load_tilemap(decoded: Decoded) -> (image: Result<DecodedImage, AtlasError>)
    ensures
        match decoded {
            Decoded::Unreadable => image == Err::<DecodedImage, AtlasError>(
                AtlasError::Load(LoadFailure::Unreadable),
            ),
            Decoded::NotConvertible => image == Err::<DecodedImage, AtlasError>(
                AtlasError::Load(LoadFailure::NotConvertible),
            ),
            Decoded::Image { width, height } => {
                &&& image matches Ok(loaded)
                &&& loaded.width() == width
                &&& loaded.height() == height
            },
        },
{
    match decoded {
        Decoded::Unreadable => Err(AtlasError::Load(LoadFailure::Unreadable)),
        Decoded::NotConvertible => Err(AtlasError::Load(LoadFailure::NotConvertible)),
        Decoded::Image { width, height } => Ok(DecodedImage { width, height }),
    }
}

/// A decoded sprite sheet together with a grid that it can be cut into. Only
/// [`TileSheet::cut`] makes one, so holding a sheet means that every cell of
/// the grid is at least one pixel wide and high and has an id.
#[derive(Clone, Copy, Debug, PartialEq, Eq, Structural)]
pub struct TileSheet {
    image: DecodedImage,
    grid: Grid,
}

impl TileSheet {
    /// Width of the decoded image in pixels.
    pub closed spec fn width(self) -> int {
        self.image.width as int
    }

    /// Height of the decoded image in pixels.
    pub closed spec fn height(self) -> int {
        self.image.height as int
    }

    /// The grid the image is cut into.
    pub closed spec fn grid(self) -> Grid {
        self.grid
    }

    /// What every sheet in executable code satisfies.
    pub open spec fn wf(self) -> bool {
        self.grid().fits(self.width(), self.height())
    }

    #[verifier::type_invariant]
    spec fn inv(self) -> bool {
        self.wf()
    }

    /// Width of one tile: the image width divided by the number of columns,
    /// rounded down. Pixels left over at the right edge belong to no tile.
    pub open spec fn tile_width(self) -> int {
        self.width() / (self.grid().columns as int)
    }

    /// Height of one tile: the image height divided by the number of rows,
    /// rounded down. Pixels left over at the bottom edge belong to no tile.
    pub open spec fn tile_height(self) -> int {
        self.height() / (self.grid().rows as int)
    }

    /// Whether `id` names a cell of the grid.
    pub open spec fn has_tile(self, id: int) -> bool {
        0 <= id < self.grid().cells()
    }

    /// The cell of tile `id`. Ids run row by row: `id = column + row * columns`.
    pub open spec fn extent(self, id: int) -> Extent {
        let columns = self.grid().columns as int;
        Extent {
            x: (id % columns) * self.tile_width(),
            y: (id / columns) * self.tile_height(),
            w: self.tile_width(),
            h: self.tile_height(),
        }
    }

    /// Pairs a loaded image with the grid it is to be cut into, ahead of
    /// [`init_tilemap`]. Refuses, with `None`, exactly where the grid does not
    /// fit: it has no cells, it has more cells than there are tile ids, or a
    /// cell would be less than one pixel wide or high. An image that does not
    /// divide evenly is no reason to refuse; the tiles are rounded down.
    pub fn cut(image: DecodedImage, grid: Grid) -> (sheet: Option<TileSheet>)
        ensures
            match sheet {
                Some(sheet) => {
                    &&& grid.fits(image.width() as int, image.height() as int)
                    &&& sheet.wf()
                    &&& sheet.width() == image.width()
                    &&& sheet.height() == image.height()
                    &&& sheet.grid() == grid
                },
                None => !grid.fits(image.width() as int, image.height() as int),
            },
    {
        if grid.can_cut(image.width, image.height) {
            Some(TileSheet { image, grid })
        } else {
            None
        }
    }
}

/// A non-owning view of one tile: the rectangle it covers, and which
/// initialization of the atlas issued it. It holds no pixels and keeps nothing
/// alive; [`Atlas::resolve`] turns it into a rectangle that may be drawn, and
/// refuses once the atlas has been initialized again.
#[derive(Clone, Copy, Debug, PartialEq, Eq, Structural)]
pub struct SubView {
    owner: u64,
    region: Region,
}

impl SubView {
    /// The initialization of the atlas that issued this view, counted from 1.
    pub closed spec fn owner(self) -> u64 {
        self.owner
    }

    /// The rectangle of the sprite sheet that this view covers.
    pub closed spec fn region(self) -> Region {
        self.region
    }
}

/// Mirroring applied when a tile is drawn.
#[derive(Clone, Copy, Debug, PartialEq, Eq, Structural)]
pub struct DrawFlags {
    pub flip_horizontal: bool,
    pub flip_vertical: bool,
}

impl DrawFlags {
    /// No mirroring.
    pub open spec fn spec_zero() -> DrawFlags {
        DrawFlags { flip_horizontal: false, flip_vertical: false }
    }

    /// No mirroring.
    #[verifier::when_used_as_spec(spec_zero)]
    pub fn zero() -> (flags: DrawFlags)
        ensures
            flags == Self::spec_zero(),
    {
        DrawFlags { flip_horizontal: false, flip_vertical: false }
    }
}

/// One scaled blit of a tile, ready to be handed to the renderer: take the
/// rectangle `(sx, sy, sw, sh)` of `tile` and draw it into the rectangle
/// `(dx, dy, dw, dh)` of the target.
#[derive(Clone, Copy, Debug, PartialEq, Eq, Structural)]
pub struct Blit {
    /// The tile's cell in the sprite sheet.
    pub tile: Region,
    pub sx: i32,
    pub sy: i32,
    pub sw: i32,
    pub sh: i32,
    pub dx: i32,
    pub dy: i32,
    pub dw: i32,
    pub dh: i32,
    pub flags: DrawFlags,
}

impl Blit {
    /// The blit that draws all of `tile`, uncropped and unscaled, with its top
    /// left corner at `(dx, dy)`; no flags means no mirroring.
    pub open spec fn whole_tile(tile: Region, dx: i32, dy: i32, flags: Option<DrawFlags>) -> Blit {
        Blit {
            tile,
            sx: 0,
            sy: 0,
            sw: tile.w,
            sh: tile.h,
            dx,
            dy,
            dw: tile.w,
            dh: tile.h,
            flags: match flags {
                Some(flags) => flags,
                None => DrawFlags::zero(),
            },
        }
    }
}

/// The grid of tiles cut from one sprite sheet.
struct Tilemap {
    tiles: HashMap<i32, SubView>,
    tile_width: i32,
    tile_height: i32,
    sheet: TileSheet,
    generation: u64,
}

/// The tile atlas. It starts out empty; [`init_tilemap`] fills it.
pub struct Atlas {
    current: Option<Tilemap>,
    initializations: u64,
}

impl Atlas {
    /// The sheet the atlas was last initialized with, if it ever was.
    pub closed spec fn sheet(&self) -> Option<TileSheet> {
        match self.current {
            Some(tilemap) => Some(tilemap.sheet),
            None => None,
        }
    }

    /// How often the atlas has been initialized.
    pub closed spec fn spec_generation(&self) -> u64 {
        self.initializations
    }

    /// The stored mapping from tile id to sub-view; empty before the first
    /// initialization.
    pub closed spec fn tiles(&self) -> Map<i32, SubView> {
        match self.current {
            Some(tilemap) => tilemap.tiles@,
            None => Map::empty(),
        }
    }

    /// Whether the atlas has been initialized at least once.
    pub open spec fn is_initialized(&self) -> bool {
        self.sheet() is Some
    }

    /// Every id of the grid has exactly one entry, that entry covers the id's
    /// cell and was issued by the current initialization, and no other id has
    /// an entry.
    pub open spec fn wf(&self) -> bool {
        match self.sheet() {
            None => self.tiles() == Map::<i32, SubView>::empty(),
            Some(sheet) => {
                &&& sheet.wf()
                &&& self.generation() >= 1
                &&& forall|id: i32| #[trigger]
                    self.tiles().contains_key(id) <==> sheet.has_tile(id as int)
                &&& forall|id: i32|
                    sheet.has_tile(id as int) ==> {
                        &&& (#[trigger] self.tiles()[id]).owner() == self.generation()
                        &&& self.tiles()[id].region()@ == sheet.extent(id as int)
                    }
            },
        }
    }

    #[verifier::type_invariant]
    spec fn inv(&self) -> bool {
        &&& self.wf()
        &&& match self.current {
            Some(tilemap) => {
                &&& tilemap.generation == self.initializations
                &&& tilemap.tile_width == tilemap.sheet.tile_width()
                &&& tilemap.tile_height == tilemap.sheet.tile_height()
            },
            None => true,
        }
    }

    /// What asking this atlas for the sub-view of tile `id` gives.
    pub open spec fn issued(&self, id: i32) -> Result<SubView, AtlasError> {
        if !self.is_initialized() {
            Err(AtlasError::NotInitialized)
        } else if !self.tiles().contains_key(id) {
            Err(AtlasError::UnknownTileId)
        } else {
            Ok(self.tiles()[id])
        }
    }

    /// What resolving `view` against this atlas gives.
    pub open spec fn resolved(&self, view: SubView) -> Result<Region, AtlasError> {
        if !self.is_initialized() {
            Err(AtlasError::NotInitialized)
        } else if view.owner() != self.generation() {
            Err(AtlasError::StaleSubView)
        } else {
            Ok(view.region())
        }
    }

    /// What drawing tile `id` at `(dx, dy)` gives: the tile's sub-view is
    /// looked up, resolved, and drawn whole.
    pub open spec fn drawn(&self, id: i32, dx: i32, dy: i32, flags: Option<DrawFlags>) -> Result<
        Blit,
        AtlasError,
    > {
        match self.issued(id) {
            Err(e) => Err(e),
            Ok(view) => match self.resolved(view) {
                Err(e) => Err(e),
                Ok(tile) => Ok(Blit::whole_tile(tile, dx, dy, flags)),
            },
        }
    }

    /// An atlas that has not been initialized.
    pub fn new() -> (atlas: Atlas)
        ensures
            atlas.wf(),
            !atlas.is_initialized(),
            atlas.generation() == 0,
    {
        Atlas { current: None, initializations: 0 }
    }

    /// How often the atlas has been initialized. Sub-views carry the count at
    /// which they were issued.
    #[verifier::when_used_as_spec(spec_generation)]
    pub fn generation(&self) -> (generation: u64)
        ensures
            generation == self.spec_generation(),
    {
        self.initializations
    }

    /// Issues the sub-view of tile `id`.
    pub fn sub_view(&self, id: i32) -> (view: Result<SubView, AtlasError>)
        ensures
            view == self.issued(id),
            match self.sheet() {
                None => view == Err::<SubView, AtlasError>(AtlasError::NotInitialized),
                Some(sheet) => if sheet.has_tile(id as int) {
                    &&& view matches Ok(v)
                    &&& v.owner() == self.generation()
                    &&& v.region()@ == sheet.extent(id as int)
                } else {
                    view == Err::<SubView, AtlasError>(AtlasError::UnknownTileId)
                },
            },
    {
        proof {
            use_type_invariant(self);
        }
        match tilemap(self) {
            Err(e) => Err(e),
            Ok(tilemap) => {
                assert(self.tiles().contains_key(id) <==> tilemap.sheet.has_tile(id as int));
                match tilemap.tiles.get(&id) {
                    Some(view) => Ok(*view),
                    None => Err(AtlasError::UnknownTileId),
                }
            },
        }
    }

    /// Resolves a sub-view into the rectangle it stands for. A view issued
    /// before the atlas was last initialized is stale and is refused.
    pub fn resolve(&self, view: SubView) -> (region: Result<Region, AtlasError>)
        ensures
            region == self.resolved(view),
    {
        match tilemap(self) {
            Err(e) => Err(e),
            Ok(tilemap) => {
                proof {
                    use_type_invariant(self);
                }
                if view.owner != tilemap.generation {
                    Err(AtlasError::StaleSubView)
                } else {
                    Ok(view.region)
                }
            },
        }
    }
}

/// The initialized tilemap of `atlas`.
fn tilemap(atlas: &Atlas) -> (found: Result<&Tilemap, AtlasError>)
    ensures
        match found {
            Ok(tilemap) => atlas.current == Some(*tilemap),
            Err(e) => atlas.current is None && e == AtlasError::NotInitialized,
        },
{
    match &atlas.current {
        Some(tilemap) => Ok(tilemap),
        None => Err(AtlasError::NotInitialized),
    }
}

/// Width of one tile in pixels.
pub fn tile_width(atlas: &Atlas) -> (width: Result<i32, AtlasError>)
    ensures
        match atlas.sheet() {
            Some(sheet) => width matches Ok(w) && w == sheet.tile_width() && w > 0,
            None => width == Err::<i32, AtlasError>(AtlasError::NotInitialized),
        },
{
    match tilemap(atlas) {
        Ok(tilemap) => {
            proof {
                use_type_invariant(atlas);
                lemma_cell(tilemap.sheet, 0, 0);
            }
            Ok(tilemap.tile_width)
        },
        Err(e) => Err(e),
    }
}

/// Height of one tile in pixels.
pub fn tile_height(atlas: &Atlas) -> (height: Result<i32, AtlasError>)
    ensures
        match atlas.sheet() {
            Some(sheet) => height matches Ok(h) && h == sheet.tile_height() && h > 0,
            None => height == Err::<i32, AtlasError>(AtlasError::NotInitialized),
        },
{
    match tilemap(atlas) {
        Ok(tilemap) => {
            proof {
                use_type_invariant(atlas);
                lemma_cell(tilemap.sheet, 0, 0);
            }
            Ok(tilemap.tile_height)
        },
        Err(e) => Err(e),
    }
}

/// Says how to draw tile `id` with its top left corner at `(dx, dy)`: the
/// whole tile, at its own size. The renderer carries the blit out.
pub fn draw_tile(atlas: &Atlas, id: i32, dx: i32, dy: i32, flags: Option<DrawFlags>) -> (blit:
    Result<Blit, AtlasError>)
    ensures
        blit == atlas.drawn(id, dx, dy, flags),
        match atlas.sheet() {
            None => blit == Err::<Blit, AtlasError>(AtlasError::NotInitialized),
            Some(sheet) => if sheet.has_tile(id as int) {
                &&& blit matches Ok(b)
                &&& b.tile@ == sheet.extent(id as int)
                &&& b == Blit::whole_tile(b.tile, dx, dy, flags)
            } else {
                blit == Err::<Blit, AtlasError>(AtlasError::UnknownTileId)
            },
        },
{
    let tile = atlas.resolve(atlas.sub_view(id)?)?;
    let sw: i32 = tile_width(atlas)?;
    let sh: i32 = tile_height(atlas)?;
    let flags = match flags {
        Some(flags) => flags,
        None => DrawFlags::zero(),
    };
    Ok(Blit { tile, sx: 0, sy: 0, sw, sh, dx, dy, dw: sw, dh: sh, flags })
}

/// Initializes the atlas from a sheet: fixes the tile size and builds the
/// sub-view of every cell of the grid. Belongs on the rendering context,
/// after the image has been bound to the display. An image that cannot be cut
/// into the grid never gets this far: [`TileSheet::cut`] gives no sheet for
/// it, and the atlas stays as it was.
///
/// Initializing again replaces the atlas entirely. Sub-views issued before
/// are stale from then on and no longer resolve.
pub fn init_tilemap(atlas: &mut Atlas, sheet: TileSheet)
    requires
        old(atlas).generation() < u64::MAX,
    ensures
        final(atlas).wf(),
        final(atlas).sheet() == Some(sheet),
        final(atlas).generation() == old(atlas).generation() + 1,
{
    proof {
        use_type_invariant(&sheet);
    }
    let columns: i32 = sheet.grid.columns;
    let rows: i32 = sheet.grid.rows;
    let tile_width: i32 = sheet.image.width / columns;
    let tile_height: i32 = sheet.image.height / rows;
    let generation: u64 = atlas.initializations + 1;
    let mut tiles: HashMap<i32, SubView> = HashMap::with_capacity((columns * rows) as usize);
    let mut y: i32 = 0;
    while y < rows
        invariant
            sheet.wf(),
            columns == sheet.grid().columns,
            rows == sheet.grid().rows,
            tile_width == sheet.tile_width(),
            tile_height == sheet.tile_height(),
            0 <= y <= rows,
            0 <= y * columns <= columns * rows,
            forall|id: i32| #[trigger] tiles@.contains_key(id) <==> 0 <= id < y * columns,
            forall|id: i32|
                0 <= id < y * columns ==> {
                    &&& (#[trigger] tiles@[id]).owner() == generation
                    &&& tiles@[id].region()@ == sheet.extent(id as int)
                },
        decreases rows - y,
    {
        let mut x: i32 = 0;
        while x < columns
            invariant
                sheet.wf(),
                columns == sheet.grid().columns,
                rows == sheet.grid().rows,
                tile_width == sheet.tile_width(),
                tile_height == sheet.tile_height(),
                0 <= y < rows,
                0 <= x <= columns,
                0 <= y * columns + x <= columns * rows,
                forall|id: i32| #[trigger] tiles@.contains_key(id) <==> 0 <= id < y * columns + x,
                forall|id: i32|
                    0 <= id < y * columns + x ==> {
                        &&& (#[trigger] tiles@[id]).owner() == generation
                        &&& tiles@[id].region()@ == sheet.extent(id as int)
                    },
            decreases columns - x,
        {
            proof {
                lemma_cell(sheet, x as int, y as int);
            }
            let id: i32 = x + y * columns;
            let region = Region {
                x: x * tile_width,
                y: y * tile_height,
                w: tile_width,
                h: tile_height,
            };
            tiles.insert(id, SubView { owner: generation, region });
            x = x + 1;
        }
        proof {
            assert((y + 1) * columns == y * columns + columns) by (nonlinear_arith);
        }
        y = y + 1;
    }
    proof {
        assert(y * columns == sheet.grid().cells()) by (nonlinear_arith)
            requires
                y == rows,
                sheet.grid().cells() == columns * rows,
        ;
    }
    *atlas = Atlas {
        current: Some(Tilemap { tiles, tile_width, tile_height, sheet, generation }),
        initializations: generation,
    };
}

/// Where cell `(column, row)` lies and which id it has.
proof fn lemma_cell(sheet: TileSheet, column: int, row: int)
    requires
        sheet.wf(),
        0 <= column < sheet.grid().columns,
        0 <= row < sheet.grid().rows,
    ensures
        sheet.has_tile(column + row * sheet.grid().columns),
        sheet.extent(column + row * sheet.grid().columns) == (Extent {
            x: column * sheet.tile_width(),
            y: row * sheet.tile_height(),
            w: sheet.tile_width(),
            h: sheet.tile_height(),
        }),
        0 <= column * sheet.tile_width() <= sheet.width() - sheet.tile_width(),
        0 <= row * sheet.tile_height() <= sheet.height() - sheet.tile_height(),
        sheet.tile_width() >= 1,
        sheet.tile_height() >= 1,
{
    let columns = sheet.grid().columns as int;
    let rows = sheet.grid().rows as int;
    let id = column + row * columns;
    lemma_fundamental_div_mod_converse(id, columns, row, column);
    assert(0 <= id < columns * rows) by (nonlinear_arith)
        requires
            id == column + row * columns,
            0 <= column < columns,
            0 <= row < rows,
    ;
    lemma_tile_span(sheet.width(), columns, column);
    lemma_tile_span(sheet.height(), rows, row);
}

/// Cutting `length` pixels into `parts` equal pieces of whole pixels: every
/// piece has at least one pixel and piece `index` ends inside the length.
proof fn lemma_tile_span(length: int, parts: int, index: int)
    by (nonlinear_arith)
    requires
        0 < parts <= length,
        0 <= index < parts,
    ensures
        length / parts >= 1,
        0 <= index * (length / parts) <= length - length / parts,
{
    assert(length == parts * (length / parts) + length % parts && 0 <= length % parts < parts);
    assert((index + 1) * (length / parts) <= parts * (length / parts));
}

/// After initialization every id of the grid draws: its blit takes the id's
/// own cell, which has the tile size, is at least one pixel wide and high, and
/// lies inside the sheet.
pub proof fn lemma_every_tile_draws(
    atlas: Atlas,
    id: i32,
    dx: i32,
    dy: i32,
    flags: Option<DrawFlags>,
)
    requires
        atlas.wf(),
        atlas.is_initialized(),
        atlas.sheet().unwrap().has_tile(id as int),
    ensures
        ({
            let sheet = atlas.sheet().unwrap();
            &&& atlas.issued(id) is Ok
            &&& atlas.resolved(atlas.issued(id).unwrap()) is Ok
            &&& atlas.drawn(id, dx, dy, flags) matches Ok(blit) && {
                &&& blit.tile@ == sheet.extent(id as int)
                &&& blit.sw == sheet.tile_width() && blit.sw > 0
                &&& blit.sh == sheet.tile_height() && blit.sh > 0
                &&& 0 <= blit.tile.x && blit.tile.x + blit.tile.w <= sheet.width()
                &&& 0 <= blit.tile.y && blit.tile.y + blit.tile.h <= sheet.height()
            }
        }),
{
    let sheet = atlas.sheet().unwrap();
    let columns = sheet.grid().columns as int;
    let rows = sheet.grid().rows as int;
    let column = id as int % columns;
    let row = id as int / columns;
    assert(atlas.tiles().contains_key(id));
    assert(0 <= column < columns && 0 <= row < rows && id == column + row * columns)
        by (nonlinear_arith)
        requires
            0 <= id < columns * rows,
            columns > 0,
            column == id as int % columns,
            row == id as int / columns,
    ;
    lemma_cell(sheet, column, row);
}

/// After initialization no id outside the grid draws or has a sub-view.
pub proof fn lemma_unknown_tile_is_refused(
    atlas: Atlas,
    id: i32,
    dx: i32,
    dy: i32,
    flags: Option<DrawFlags>,
)
    requires
        atlas.wf(),
        atlas.is_initialized(),
        !atlas.sheet().unwrap().has_tile(id as int),
    ensures
        atlas.issued(id) == Err::<SubView, AtlasError>(AtlasError::UnknownTileId),
        atlas.drawn(id, dx, dy, flags) == Err::<Blit, AtlasError>(AtlasError::UnknownTileId),
{
    assert(!atlas.tiles().contains_key(id));
}

/// Before initialization the atlas answers nothing: every lookup, resolution
/// and draw is refused as not initialized.
pub proof fn lemma_uninitialized_atlas_refuses(
    atlas: Atlas,
    id: i32,
    view: SubView,
    dx: i32,
    dy: i32,
    flags: Option<DrawFlags>,
)
    requires
        !atlas.is_initialized(),
    ensures
        atlas.issued(id) == Err::<SubView, AtlasError>(AtlasError::NotInitialized),
        atlas.resolved(view) == Err::<Region, AtlasError>(AtlasError::NotInitialized),
        atlas.drawn(id, dx, dy, flags) == Err::<Blit, AtlasError>(AtlasError::NotInitialized),
{
}

/// Resolving the same tile id twice gives the same rectangle: the same offset
/// in the sheet and the same size. This holds of two resolutions against one
/// atlas, and also across a second initialization from an equal sheet.
pub proof fn lemma_resolution_is_idempotent(first: Atlas, second: Atlas, id: i32)
    requires
        first.wf(),
        second.wf(),
        first.is_initialized(),
        first.sheet() == second.sheet(),
        first.sheet().unwrap().has_tile(id as int),
    ensures
        first.issued(id) is Ok,
        second.issued(id) is Ok,
        first.resolved(first.issued(id).unwrap()) is Ok,
        first.resolved(first.issued(id).unwrap()) == second.resolved(second.issued(id).unwrap()),
{
    assert(first.tiles().contains_key(id));
    assert(second.tiles().contains_key(id));
    assert(first.tiles()[id].region()@ == second.tiles()[id].region()@);
}

/// A sub-view does not outlive its atlas: once the atlas has been initialized
/// again, every view issued before is refused as stale.
pub proof fn lemma_reinitialization_invalidates(before: Atlas, after: Atlas, id: i32)
    requires
        before.wf(),
        before.issued(id) is Ok,
        after.is_initialized(),
        after.generation() > before.generation(),
    ensures
        after.resolved(before.issued(id).unwrap()) == Err::<Region, AtlasError>(
            AtlasError::StaleSubView,
        ),
{
    assert(before.tiles().contains_key(id));
}

} // verus!
