//! The words that the game knows without being given a source.

use vstd::prelude::*;

verus! {

/// A built-in word that stands apart from the lists, so that the built-in
/// pool is not empty, whatever the lists hold.
pub const FIRST_WORD: &'static str = "about";

/// The other built-in words that begin with a letter from `a` to `c`, one to a line.
pub const WORDS_A_TO_C: &'static str = "\
abbey\nabbot\nabhor\nabide\nabode\nabort\nabove\nabuse\nabyss\nached\nacids\nacorn\n\
acres\nacted\nactor\nacute\nadage\nadapt\nadded\nadept\nadmin\nadmit\nadobe\nadopt\n\
adore\nadorn\nadult\naffix\nafire\nafoot\nafoul\nafter\nagain\nagape\nagate\nagent\n\
agile\naging\nagony\nagree\nahead\naided\naimed\naired\naisle\nalarm\nalbum\nalert\n\
algae\nalgal\nalias\nalibi\nalien\nalign\nalike\nalive\nallay\nalley\nallot\nallow\n\
alloy\naloft\naloha\nalone\nalong\naloof\naloud\nalpha\naltar\nalter\namass\namaze\n\
amber\namble\namend\namino\namiss\namong\nample\namply\namuse\nangel\nanger\nangle\n\
angry\nangst\nanime\nankle\nannex\nannoy\nannul\nanode\nantic\nanvil\naorta\napart\n\
aphid\napple\napply\napron\narbor\nardor\nareas\narena\nargon\nargue\narise\narmed\n\
armor\naroma\narose\narray\narrow\narson\nartsy\nascot\nashen\nashes\naside\nasked\n\
askew\nassay\nasset\natlas\natoll\natoms\natone\nattic\naudio\naudit\nauger\naugur\n\
aunts\navail\navert\navian\navoid\nawait\nawake\naward\naware\nawash\nawful\nawoke\n\
axial\naxiom\nazure\nbacks\nbacon\nbadge\nbadly\nbagel\nbaggy\nbaked\nbaker\nbales\n\
balls\nbalmy\nbanal\nbands\nbangs\nbanjo\nbanks\nbarbs\nbared\nbarge\nbarks\nbarns\n\
baron\nbasal\nbased\nbases\nbasic\nbasil\nbasin\nbasis\nbaste\nbatch\nbathe\nbaths\n\
baton\nbatty\nbayou\nbeach\nbeads\nbeady\nbeaks\nbeams\nbeans\nbeard\nbears\nbeast\n\
beats\nbeech\nbeefy\nbeets\nbefit\nbegan\nbegat\nbeget\nbegin\nbegun\nbeige\nbeing\n\
belch\nbelie\nbelle\nbells\nbelly\nbelow\nbelts\nbench\nbends\nberet\nberry\nberth\n\
beset\nbevel\nbicep\nbikes\nbilge\nbills\nbinge\nbingo\nbiome\nbirch\nbirds\nbirth\n\
bison\nbites\nblack\nblade\nblame\nbland\nblank\nblare\nblast\nblaze\nbleak\nbleat\n\
bleed\nbleep\nblend\nbless\nblimp\nblind\nblink\nbliss\nblitz\nbloat\nblock\nbloke\n\
blond\nblood\nbloom\nblown\nblows\nblues\nbluff\nblunt\nblurb\nblurt\nblush\nboard\n\
boast\nboats\nboils\nbolts\nbombs\nbonds\nbones\nboney\nbongo\nbonus\nbooks\nboost\n\
booth\nboots\nbooty\nbooze\nboozy\nborax\nbored\nborne\nbosom\nbossy\nbotch\nbough\n\
bound\nbowed\nbowel\nbowls\nboxed\nboxer\nboxes\nbrace\nbraid\nbrain\nbrake\nbrand\n\
brash\nbrass\nbrave\nbravo\nbrawl\nbrawn\nbread\nbreak\nbreed\nbriar\nbribe\nbrick\n\
bride\nbrief\nbrine\nbring\nbrink\nbrisk\nbroad\nbroil\nbroke\nbrood\nbrook\nbroom\n\
broth\nbrown\nbrows\nbrunt\nbrush\nbrute\nbucks\nbuddy\nbudge\nbuggy\nbugle\nbuild\n\
built\nbulbs\nbulge\nbulky\nbulls\nbully\nbumps\nbunch\nbunks\nbunny\nburly\nburns\n\
burnt\nburro\nburst\nbuses\nbushy\nbutte\nbuxom\nbuyer\nbylaw\ncabal\ncabby\ncabin\n\
cable\ncacao\ncacti\ncaddy\ncadet\ncafes\ncages\ncagey\ncairn\ncaked\ncakes\ncalls\n\
camel\ncameo\ncamps\ncanal\ncandy\ncanny\ncanoe\ncanon\ncaper\ncaput\ncarat\ncards\n\
cared\ncares\ncargo\ncarol\ncarry\ncarts\ncarve\ncases\ncaste\ncasts\ncatch\ncater\n\
catty\ncaulk\ncause\ncaves\ncavil\ncease\ncedar\ncello\ncells\ncents\nchafe\nchaff\n\
chain\nchair\nchalk\nchamp\nchant\nchaos\nchaps\nchard\ncharm\nchart\nchase\nchasm\n\
cheap\ncheat\ncheck\ncheek\ncheer\nchess\nchest\nchewy\nchick\nchide\nchief\nchild\n\
chili\nchill\nchime\nchina\nchips\nchirp\nchock\nchoir\nchoke\nchops\nchord\nchore\n\
chose\nchuck\nchunk\nchurn\nchute\ncider\ncigar\ncinch\ncirca\ncited\ncivic\ncivil\n\
clack\nclaim\nclamp\nclams\nclang\nclank\nclash\nclasp\nclass\nclaws\nclean\nclear\n\
cleat\ncleft\nclerk\nclick\ncliff\nclimb\ncling\nclips\ncloak\nclock\nclone\nclose\n\
cloth\ncloud\nclout\nclove\nclown\nclubs\ncluck\nclues\nclump\nclung\ncoach\ncoals\n\
coast\ncoats\ncobra\ncocky\ncocoa\ncodes\ncoils\ncoins\ncolds\ncolon\ncolor\ncolts\n\
combs\ncomes\ncomet\ncomfy\ncomic\ncomma\nconch\ncondo\ncones\nconic\ncooks\ncooky\n\
cools\ncopse\ncoral\ncords\ncorer\ncores\ncorny\ncorps\ncosts\ncouch\ncough\ncould\n\
count\ncoupe\ncourt\ncoven\ncover\ncovet\ncovey\ncower\ncoyly\ncrabs\ncrack\ncraft\n\
cramp\ncrane\ncrank\ncrash\ncrass\ncrate\ncrave\ncrawl\ncraze\ncrazy\ncreak\ncream\n\
credo\ncreed\ncreek\ncreep\ncreme\ncrepe\ncrept\ncress\ncrest\ncrews\ncrick\ncried\n\
crier\ncries\ncrime\ncrimp\ncrisp\ncroak\ncrock\ncrone\ncrony\ncrook\ncrops\ncross\n\
croup\ncrowd\ncrown\ncrows\ncrude\ncruel\ncrumb\ncrush\ncrust\ncrypt\ncubes\ncubic\n\
cuffs\ncumin\ncurds\ncured\ncures\ncurio\ncurls\ncurly\ncurry\ncurse\ncurve\ncurvy\n\
cutie\ncyber\ncycle\ncynic\n\
";

/// The other built-in words that begin with a letter from `d` to `l`, one to a line.
pub const WORDS_D_TO_L: &'static str = "\
daddy\ndaily\ndairy\ndaisy\ndally\ndance\ndandy\ndared\ndarts\ndated\ndates\ndaunt\n\
deals\ndealt\ndeath\ndebar\ndebit\ndebts\ndebut\ndecal\ndecay\ndecks\ndecor\ndecoy\n\
decry\ndeeds\ndefer\ndeign\ndeity\ndelay\ndelta\ndelve\ndemon\ndemur\ndenim\ndense\n\
depot\ndepth\nderby\ndesks\ndeter\ndetox\ndeuce\ndevil\ndials\ndiary\ndicey\ndiets\n\
digit\ndikes\ndilly\ndimes\ndimly\ndined\ndiner\ndingo\ndingy\ndiode\ndirge\ndirty\n\
disco\ndiscs\ndisks\nditch\nditto\nditty\ndivan\ndived\ndiver\ndives\ndivot\ndizzy\n\
docks\ndodge\ndodgy\ndogma\ndoing\ndolls\ndolly\ndonor\ndonut\ndoors\ndopey\ndoses\n\
doubt\ndough\ndoves\ndowdy\ndowel\ndowny\ndowry\ndozed\ndozen\ndraft\ndrags\ndrain\n\
drama\ndrank\ndrape\ndrawl\ndrawn\ndraws\ndread\ndream\ndress\ndried\ndrier\ndries\n\
drift\ndrill\ndrink\ndrive\ndroll\ndrone\ndrool\ndroop\ndrops\ndrove\ndrown\ndrugs\n\
druid\ndrums\ndrunk\ndryer\ndryly\nduchy\nducks\nducts\ndully\ndummy\ndumpy\ndunes\n\
dusky\ndusty\nduvet\ndwarf\ndwell\ndwelt\ndying\neager\neagle\nearly\nearns\nearth\n\
eased\neasel\neaten\neater\nebony\neclat\nedged\nedges\nedict\nedify\neerie\negret\n\
eight\neject\neking\nelate\nelbow\nelder\nelect\nelegy\nelfin\nelide\nelite\nelope\n\
elude\nelves\nemail\nembed\nember\nemcee\nemery\nempty\nenact\nended\nendow\nenema\n\
enemy\nenjoy\nennui\nensue\nenter\nentry\nenvoy\nepoch\nepoxy\nequal\nequip\nerase\n\
erect\nerode\nerror\nerupt\nessay\nester\nether\nethic\nethos\netude\nevade\nevent\n\
every\nevict\nevils\nevoke\nexact\nexalt\nexcel\nexert\nexile\nexist\nexits\nextra\n\
exult\nfable\nfaced\nfaces\nfacet\nfacts\nfaded\nfails\nfaint\nfairs\nfairy\nfaith\n\
falls\nfalse\nfancy\nfangs\nfarce\nfares\nfarms\nfatal\nfatty\nfault\nfauna\nfavor\n\
fears\nfeast\nfeats\nfeeds\nfeels\nfeign\nfella\nfelon\nfemur\nfence\nferal\nferns\n\
ferry\nfetal\nfetch\nfetid\nfever\nfewer\nfiber\nfibre\nficus\nfield\nfiend\nfiery\n\
fifth\nfifty\nfight\nfiled\nfiler\nfiles\nfilet\nfills\nfilly\nfilms\nfilmy\nfilth\n\
final\nfinch\nfinds\nfined\nfiner\nfired\nfires\nfirms\nfirst\nfishy\nfists\nfives\n\
fixed\nfixer\nfizzy\nfjord\nflack\nflags\nflail\nflair\nflake\nflaky\nflame\nflank\n\
flaps\nflare\nflash\nflask\nflats\nfleas\nfleck\nfleet\nflesh\nflick\nflier\nflies\n\
fling\nflint\nflips\nfloat\nflock\nflood\nfloor\nfloss\nflour\nflout\nflown\nflows\n\
fluff\nfluid\nfluke\nflume\nflung\nflunk\nflush\nflute\nflyer\nfoamy\nfocal\nfocus\n\
foggy\nfoist\nfolds\nfolio\nfolks\nfolly\nfonts\nfoods\nfools\nforay\nforce\nforge\n\
forgo\nforks\nforms\nforte\nforth\nforts\nforty\nforum\nfound\nfours\nfoxes\nfoyer\n\
frail\nframe\nfrank\nfraud\nfreak\nfreed\nfreer\nfresh\nfriar\nfried\nfrill\nfrisk\n\
frock\nfrogs\nfrond\nfront\nfrost\nfroth\nfrown\nfroze\nfruit\nfudge\nfuels\nfugue\n\
fully\nfumes\nfunds\nfungi\nfunky\nfunny\nfuror\nfurry\nfuses\nfussy\nfuzzy\ngaffe\n\
gaily\ngains\ngamer\ngames\ngamma\ngamut\ngaped\ngases\ngasps\ngassy\ngates\ngaudy\n\
gauge\ngaunt\ngauze\ngavel\ngawky\ngazed\ngazer\ngears\ngecko\ngeeky\ngeese\ngenes\n\
genie\ngenre\ngenus\ngerms\nghost\ngiant\ngiddy\ngifts\ngills\ngirls\ngirly\ngirth\n\
given\ngiver\ngives\nglade\ngland\nglare\nglass\nglaze\ngleam\nglean\nglide\nglint\n\
gloat\nglobe\ngloom\nglory\ngloss\nglove\nglows\nglued\nglyph\ngnash\ngnome\ngoals\n\
goats\ngodly\ngoing\ngolem\ngolly\ngoner\ngoods\ngoody\ngooey\ngoofy\ngoose\ngorge\n\
gouge\ngourd\ngowns\ngrabs\ngrace\ngrade\ngraft\ngrail\ngrain\ngrams\ngrand\ngrant\n\
grape\ngraph\ngrasp\ngrass\ngrate\ngrave\ngravy\ngraze\ngreat\ngreed\ngreen\ngreet\n\
grief\ngrill\ngrime\ngrimy\ngrind\ngrins\ngrips\ngroan\ngroin\ngroom\ngrope\ngross\n\
group\ngrout\ngrove\ngrowl\ngrown\ngrows\ngrubs\ngruel\ngruff\ngrunt\nguard\nguava\n\
guess\nguest\nguide\nguild\nguile\nguilt\nguise\ngulch\ngulls\ngully\ngumbo\ngummy\n\
guppy\ngusto\ngusts\ngusty\nhabit\nhaiku\nhairs\nhairy\nhalls\nhands\nhandy\nhangs\n\
happy\nhardy\nhares\nharpy\nharsh\nhaste\nhasty\nhatch\nhated\nhater\nhates\nhaunt\n\
haute\nhaven\nhavoc\nhawks\nhazel\nheads\nheady\nheaps\nheard\nhears\nheart\nheath\n\
heats\nheave\nheavy\nhedge\nheels\nhefty\nheirs\nheist\nhelix\nhello\nhelps\nhence\n\
herbs\nherds\nheron\nhides\nhiked\nhills\nhilly\nhinge\nhints\nhippo\nhippy\nhired\n\
hitch\nhoard\nhobby\nhoist\nholds\nholes\nholly\nhomer\nhomes\nhoney\nhonor\nhoods\n\
hoofs\nhooks\nhoops\nhoped\nhopes\nhorde\nhorns\nhorse\nhosts\nhotel\nhotly\nhound\n\
hours\nhouse\nhovel\nhover\nhowdy\nhowls\nhuman\nhumid\nhumor\nhumph\nhumps\nhumus\n\
hunch\nhunky\nhunts\nhurry\nhurts\nhusks\nhusky\nhutch\nhydro\nhyena\nhymns\nhyper\n\
icily\nicing\nideal\nideas\nidiom\nidols\nimage\nimbue\nimpel\nimply\ninane\ninbox\n\
incur\nindex\ninept\ninert\ninfer\ningot\ninlay\ninlet\ninner\ninput\ninter\nintro\n\
ionic\nirate\nirons\nirony\nislet\nissue\nitchy\nitems\nivory\njaunt\njazzy\njeans\n\
jelly\njerky\njetty\njewel\njiffy\njoins\njoint\njoist\njoker\njokes\njolly\njoust\n\
judge\njuice\njuicy\njumbo\njumps\njumpy\njunta\njuror\nkappa\nkarma\nkayak\nkebab\n\
keeps\nkhaki\nkicks\nkills\nkinds\nkings\nkinky\nkiosk\nkites\nkitty\nknack\nknave\n\
knead\nkneel\nknees\nknelt\nknife\nknobs\nknock\nknoll\nknots\nknown\nknows\nkoala\n\
krill\nlabel\nlabor\nlaced\nlaces\nlacks\nladen\nladle\nlager\nlakes\nlambs\nlamps\n\
lance\nlands\nlanes\nlanky\nlapel\nlapse\nlarge\nlarva\nlaser\nlasso\nlasts\nlatch\n\
later\nlathe\nlatte\nlaugh\nlawns\nlayer\nleach\nleads\nleafy\nleaks\nleaky\nleans\n\
leant\nleaps\nleapt\nlearn\nlease\nleash\nleast\nleave\nledge\nleech\nleery\nlefty\n\
legal\nleggy\nlemon\nlemur\nlends\nleper\nlevel\nlever\nlibel\nliege\nlifts\nlight\n\
liked\nliken\nlikes\nlilac\nlimbo\nlimbs\nlimit\nlined\nlinen\nliner\nlines\nlingo\n\
links\nlions\nlipid\nlists\nlithe\nlived\nliver\nlives\nlivid\nllama\nloads\nloamy\n\
loans\nloath\nlobby\nlocal\nlocks\nlocus\nlodge\nlofty\nlogic\nlogin\nloins\nlooks\n\
looms\nloops\nloopy\nloose\nlords\nlorry\nloser\nloses\nlouse\nlousy\nloved\nlover\n\
loves\nlower\nlowly\nloyal\nlucid\nlucky\nlumen\nlumps\nlumpy\nlunar\nlunch\nlunge\n\
lungs\nlupus\nlurch\nlurid\nlusty\nlying\nlymph\nlyric\n\
";

/// The other built-in words that begin with a letter from `m` to `r`, one to a line.
pub const WORDS_M_TO_R: &'static str = "\
macaw\nmacho\nmacro\nmadam\nmadly\nmafia\nmagic\nmagma\nmaids\nmails\nmaize\nmajor\n\
maker\nmakes\nmales\nmambo\nmanga\nmange\nmango\nmangy\nmania\nmanic\nmanly\nmanor\n\
maple\nmarch\nmares\nmarks\nmarry\nmarsh\nmasks\nmason\nmasse\nmasts\nmatch\nmates\n\
matey\nmauve\nmaxim\nmaybe\nmayor\nmeals\nmealy\nmeans\nmeant\nmeats\nmeaty\nmecca\n\
medal\nmedia\nmedic\nmeets\nmelee\nmelon\nmelts\nmenus\nmercy\nmerge\nmerit\nmerry\n\
messy\nmetal\nmeter\nmetro\nmicro\nmidge\nmidst\nmight\nmiles\nmilky\nmills\nmimic\n\
mince\nminds\nmined\nminer\nmines\nminor\nminty\nminus\nmirth\nmiser\nmissy\nmists\n\
misty\nmixed\nmixes\nmocha\nmodal\nmodel\nmodem\nmodes\nmogul\nmoist\nmolar\nmolds\n\
moldy\nmoney\nmonth\nmoods\nmoody\nmoons\nmoose\nmoral\nmorph\nmossy\nmotel\nmoths\n\
motif\nmotor\nmotto\nmoult\nmound\nmount\nmourn\nmouse\nmouth\nmoved\nmover\nmoves\n\
movie\nmowed\nmower\nmucky\nmucus\nmuddy\nmulch\nmules\nmummy\nmumps\nmunch\nmural\n\
murky\nmushy\nmusic\nmusky\nmusty\nmuted\nmyrrh\nmyths\nnadir\nnails\nnaive\nnaked\n\
named\nnames\nnanny\nnasal\nnasty\nnatal\nnaval\nnavel\nnecks\nneeds\nneedy\nneigh\n\
nerdy\nnerve\nnests\nnever\nnewer\nnewly\nnicer\nniche\nniece\nnight\nninja\nninth\n\
noble\nnobly\nnoise\nnoisy\nnomad\nnoose\nnorth\nnoses\nnosey\nnotch\nnoted\nnotes\n\
nouns\nnovel\nnudge\nnurse\nnutty\nnylon\nnymph\noaken\noases\noasis\noaths\nobese\n\
occur\nocean\noctal\noctet\nodder\noddly\nodors\noffal\noffer\noften\nolden\nolder\n\
olive\nombre\nomega\nonion\nonset\nopens\nopera\nopine\nopium\noptic\norbit\norder\n\
organ\nother\notter\nought\nounce\noutdo\nouter\noutgo\novary\novate\novens\novert\n\
ovine\novoid\nowing\nowned\nowner\noxide\nozone\npaced\npaces\npacks\npaddy\npagan\n\
pages\npails\npains\npaint\npairs\npaler\npalms\npalsy\npanel\npanes\npangs\npanic\n\
pansy\npants\npapal\npaper\nparka\nparks\nparry\nparse\nparts\nparty\npasta\npaste\n\
pasty\npatch\npaths\npatio\npatsy\npatty\npause\npaved\npayee\npayer\npeace\npeach\n\
peaks\npearl\npears\npecan\npedal\npeers\npelts\npenal\npence\npenne\npenny\nperch\n\
peril\nperky\npesky\npesto\npests\npetal\npetty\nphase\nphone\nphony\nphoto\npiano\n\
picks\npicky\npiece\npiers\npiety\npiggy\npiled\npiles\npills\npilot\npinch\npines\n\
piney\npinky\npinto\npints\npious\npiped\npiper\npipes\npique\npitch\npithy\npivot\n\
pixel\npixie\npizza\nplace\nplaid\nplain\nplait\nplane\nplank\nplans\nplant\nplate\n\
plays\nplaza\nplead\npleat\nplied\nplier\nplots\nplows\npluck\nplugs\nplumb\nplume\n\
plump\nplums\nplunk\nplush\npoems\npoesy\npoets\npoint\npoise\npoked\npoker\npolar\n\
poles\npolio\npolka\npolls\npolyp\nponds\npooch\npools\npoppy\nporch\npores\nports\n\
posed\nposer\nposes\nposit\nposse\nposts\npouch\npound\npours\npouty\npower\nprank\n\
prawn\npreen\npress\nprice\npride\npried\nprime\nprimo\nprint\nprior\nprism\nprivy\n\
prize\nprobe\nprone\nprong\nproof\nprose\nproud\nprove\nprowl\nproxy\nprude\nprune\n\
psalm\npudgy\npuffs\npuffy\npulls\npulpy\npulse\npumps\npunch\npupae\npupal\npupil\n\
puppy\npuree\npurer\npurge\npurse\npushy\nputty\nquack\nquail\nquake\nqualm\nquark\n\
quart\nquash\nquasi\nqueen\nqueer\nquell\nquery\nquest\nqueue\nquick\nquiet\nquill\n\
quilt\nquirk\nquite\nquota\nquote\nquoth\nrabbi\nrabid\nraced\nracer\nraces\nradar\n\
radii\nradio\nrafts\nraged\nraids\nrails\nrains\nrainy\nraise\nrajah\nraked\nrally\n\
ramen\nranch\nrange\nranks\nrapid\nrarer\nraspy\nrated\nrates\nratio\nratty\nraven\n\
rayon\nrazor\nreach\nreact\nreads\nready\nrealm\nrearm\nrebar\nrebel\nrebus\nrebut\n\
recap\nrecur\nrecut\nreeds\nreedy\nreefs\nrefer\nrefit\nregal\nrehab\nreign\nreins\n\
relax\nrelay\nrelic\nremit\nrenal\nrenew\nrents\nrepay\nrepel\nreply\nrerun\nreset\n\
resin\nrests\nretch\nretro\nretry\nreuse\nrevel\nrevue\nrhino\nrhyme\nrider\nrides\n\
ridge\nrifle\nright\nrigid\nrigor\nrings\nrinse\nriots\nripen\nriper\nrisen\nriser\n\
rises\nrisks\nrisky\nrites\nrival\nriver\nrivet\nroach\nroads\nroars\nroast\nrobes\n\
robin\nrobot\nrocks\nrocky\nrodeo\nrogue\nroles\nrolls\nroofs\nrooms\nroomy\nroost\n\
roots\nroped\nropes\nroses\nrotor\nrouge\nrough\nround\nrouse\nroute\nrover\nrowdy\n\
rowed\nrower\nroyal\nruddy\nruder\nrugby\nruins\nruled\nruler\nrules\nrumba\nrumor\n\
rupee\nrural\nrusty\n\
";

/// The other built-in words that begin with `s`, one to a line.
pub const WORDS_S: &'static str = "\
sacks\nsadly\nsafer\nsails\nsaint\nsakes\nsalad\nsales\nsalon\nsalsa\nsalts\nsalty\n\
salve\nsalvo\nsands\nsandy\nsaner\nsappy\nsassy\nsatin\nsatyr\nsauce\nsaucy\nsauna\n\
saute\nsaved\nsaves\nsavor\nsavvy\nsawed\nscald\nscale\nscalp\nscaly\nscamp\nscant\n\
scare\nscarf\nscars\nscary\nscene\nscent\nschwa\nscion\nscoff\nscold\nscone\nscoop\n\
scope\nscore\nscorn\nscour\nscout\nscowl\nscram\nscrap\nscree\nscrew\nscrub\nscrum\n\
scuba\nseals\nseams\nseats\nsedan\nseeds\nseedy\nseeks\nseems\nsegue\nseize\nsells\n\
sends\nsense\nsepia\nserfs\nserif\nserum\nserve\nsetup\nseven\nsever\nsewed\nsewer\n\
shack\nshade\nshady\nshaft\nshake\nshaky\nshale\nshall\nshalt\nshame\nshank\nshape\n\
shard\nshare\nshark\nsharp\nshave\nshawl\nshear\nsheds\nsheen\nsheep\nsheer\nsheet\n\
sheik\nshelf\nshell\nshied\nshift\nshine\nshiny\nships\nshire\nshirk\nshirt\nshoal\n\
shock\nshoes\nshone\nshook\nshoot\nshops\nshore\nshorn\nshort\nshots\nshout\nshove\n\
shown\nshows\nshowy\nshrew\nshrub\nshrug\nshuck\nshunt\nshush\nshyly\nsides\nsiege\n\
sieve\nsighs\nsight\nsigma\nsigns\nsilks\nsilky\nsilly\nsince\nsinew\nsinge\nsings\n\
sinks\nsiren\nsites\nsixes\nsixth\nsixty\nsized\nsizes\nskate\nskier\nskies\nskiff\n\
skill\nskimp\nskins\nskips\nskirt\nskulk\nskull\nskunk\nslabs\nslack\nslain\nslang\n\
slant\nslaps\nslash\nslate\nslave\nsleds\nsleek\nsleep\nsleet\nslept\nslice\nslick\n\
slide\nslime\nslimy\nsling\nslink\nslips\nslits\nsloop\nslope\nslosh\nsloth\nslots\n\
slows\nslump\nslums\nslung\nslunk\nslurp\nslush\nslyly\nsmack\nsmall\nsmart\nsmash\n\
smear\nsmell\nsmelt\nsmile\nsmirk\nsmite\nsmith\nsmock\nsmoke\nsmoky\nsmote\nsnack\n\
snail\nsnake\nsnaky\nsnaps\nsnare\nsnarl\nsneak\nsneer\nsnide\nsniff\nsnipe\nsnips\n\
snoop\nsnore\nsnort\nsnout\nsnows\nsnowy\nsnuck\nsnuff\nsoaks\nsoaps\nsoapy\nsober\n\
socks\nsoggy\nsoils\nsolar\nsoles\nsolid\nsolve\nsonar\nsongs\nsonic\nsooth\nsooty\n\
sorry\nsorts\nsouls\nsound\nsoups\nsouth\nsower\nspace\nspade\nspank\nspare\nspark\n\
spasm\nspawn\nspeak\nspear\nspeck\nspeed\nspell\nspelt\nspend\nspent\nspice\nspicy\n\
spied\nspiel\nspies\nspike\nspiky\nspill\nspilt\nspine\nspins\nspiny\nspire\nspite\n\
splat\nsplit\nspoil\nspoke\nspoof\nspook\nspool\nspoon\nspore\nsport\nspots\nspout\n\
spray\nspree\nsprig\nspunk\nspurn\nspurs\nspurt\nsquad\nsquat\nsquib\nsquid\nstack\n\
staff\nstage\nstaid\nstain\nstair\nstake\nstale\nstalk\nstall\nstamp\nstand\nstank\n\
stare\nstark\nstars\nstart\nstash\nstate\nstave\nstays\nstead\nsteak\nsteal\nsteam\n\
steed\nsteel\nsteep\nsteer\nstein\nstems\nsteps\nstern\nstick\nstiff\nstill\nstilt\n\
sting\nstink\nstint\nstirs\nstock\nstoic\nstoke\nstole\nstomp\nstone\nstony\nstood\n\
stool\nstoop\nstops\nstore\nstork\nstorm\nstory\nstout\nstove\nstrap\nstraw\nstray\n\
strip\nstrum\nstrut\nstuck\nstudy\nstuff\nstump\nstung\nstunk\nstunt\nstyle\nsuave\n\
sugar\nsuing\nsuite\nsuits\nsulky\nsully\nsumac\nsunny\nsunup\nsuper\nsurer\nsurge\n\
surly\nsushi\nswami\nswamp\nswans\nswarm\nswash\nswath\nswear\nsweat\nsweep\nsweet\n\
swell\nswept\nswift\nswill\nswims\nswine\nswing\nswirl\nswish\nswoon\nswoop\nsword\n\
swore\nsworn\nswung\nsynod\nsyrup\n\
";

/// The other built-in words that begin with a letter from `t` to `z`, one to a line.
pub const WORDS_T_TO_Z: &'static str = "\
tabby\ntable\ntaboo\ntacit\ntacks\ntacky\ntaffy\ntails\ntaint\ntaken\ntaker\ntakes\n\
tales\ntalks\ntally\ntalon\ntamed\ntamer\ntango\ntangy\ntanks\ntaper\ntapes\ntapir\n\
tardy\ntarot\ntarry\ntasks\ntaste\ntasty\ntatty\ntaunt\ntawny\ntaxed\ntaxes\ntaxis\n\
teach\nteams\ntears\nteary\ntease\nteddy\nteens\nteeth\ntells\ntempo\ntends\ntenet\n\
tenor\ntense\ntenth\ntents\ntepee\ntepid\nterms\nterra\nterse\ntests\ntesty\ntexts\n\
thank\ntheft\ntheir\ntheme\nthere\nthese\ntheta\nthick\nthief\nthigh\nthine\nthing\n\
think\nthird\nthong\nthorn\nthose\nthree\nthrew\nthrob\nthrow\nthrum\nthumb\nthump\n\
thyme\ntiara\ntibia\nticks\ntidal\ntides\ntiger\ntight\ntilde\ntiles\ntimed\ntimer\n\
times\ntimid\ntipsy\ntired\ntires\ntitan\ntithe\ntitle\ntoads\ntoast\ntoday\ntoddy\n\
token\ntombs\ntonal\ntones\ntongs\ntonic\ntools\ntooth\ntopaz\ntopic\ntorch\ntorso\n\
torus\ntotal\ntotem\ntouch\ntough\ntours\ntowed\ntowel\ntower\ntowns\ntoxic\ntoxin\n\
trace\ntrack\ntract\ntrade\ntrail\ntrain\ntrait\ntramp\ntraps\ntrash\ntrawl\ntrays\n\
tread\ntreat\ntrees\ntrend\ntriad\ntrial\ntribe\ntrice\ntrick\ntried\ntries\ntripe\n\
trips\ntrite\ntroll\ntroop\ntrope\ntrout\ntrove\ntruce\ntruck\ntruer\ntruly\ntrump\n\
trunk\ntruss\ntrust\ntruth\ntryst\ntubal\ntuber\ntubes\ntufts\ntulip\ntulle\ntumor\n\
tuned\ntunes\ntunic\nturbo\nturns\ntusks\ntutor\ntwang\ntweak\ntweed\ntweet\ntwice\n\
twigs\ntwine\ntwins\ntwirl\ntwist\ntwixt\ntying\ntyped\ntypes\nudder\nulcer\nultra\n\
umbra\nuncle\nuncut\nunder\nundid\nundue\nunfed\nunfit\nunify\nunion\nunite\nunits\n\
unity\nunlit\nunmet\nunset\nuntie\nuntil\nunwed\nunzip\nupper\nupset\nurban\nurged\n\
urges\nusage\nusers\nusher\nusing\nusual\nusurp\nutter\nvague\nvalet\nvalid\nvalor\n\
value\nvalve\nvanes\nvapid\nvapor\nvases\nvault\nvaunt\nvegan\nveins\nvenom\nvenue\n\
verbs\nverge\nverse\nverso\nverve\nvicar\nvideo\nviews\nvigil\nvigor\nvilla\nvines\n\
vinyl\nviola\nviper\nviral\nvirus\nvisit\nvisor\nvista\nvital\nvivid\nvixen\nvocal\n\
vodka\nvogue\nvoice\nvoila\nvolts\nvomit\nvoted\nvoter\nvotes\nvouch\nvowed\nvowel\n\
vying\nwacky\nwaded\nwafer\nwaged\nwager\nwages\nwagon\nwaist\nwaits\nwaive\nwakes\n\
walks\nwalls\nwaltz\nwants\nwares\nwarms\nwarns\nwarty\nwasps\nwaste\nwatch\nwater\n\
waved\nwaver\nwaves\nwaxed\nwaxen\nwaxes\nwears\nweary\nweave\nwedge\nweeds\nweedy\n\
weeks\nweigh\nweird\nwells\nwhack\nwhale\nwharf\nwheat\nwheel\nwhelp\nwhere\nwhich\n\
whiff\nwhile\nwhine\nwhiny\nwhips\nwhirl\nwhisk\nwhite\nwhole\nwhoop\nwhose\nwiden\n\
wider\nwidow\nwidth\nwield\nwight\nwilds\nwimpy\nwince\nwinch\nwinds\nwindy\nwines\n\
wings\nwiped\nwired\nwires\nwiser\nwispy\nwitch\nwitty\nwives\nwoken\nwoman\nwomen\n\
woods\nwoody\nwooer\nwools\nwooly\nwoozy\nwords\nwordy\nworks\nworld\nworms\nworry\n\
worse\nworst\nworth\nwould\nwound\nwoven\nwrack\nwraps\nwrath\nwreak\nwreck\nwrest\n\
wring\nwrist\nwrite\nwrong\nwrote\nwrung\nwryly\nyacht\nyards\nyarns\nyearn\nyears\n\
yeast\nyells\nyield\nyoung\nyours\nyouth\nyucca\nzebra\nzeros\nzesty\nzonal\nzones\n\
";

} // verus!
